//! A small weather-report library. It classifies a provider's numeric
//! weather code into a closed set of categories, extracts a current-weather
//! record from a JSON payload all-or-nothing, computes the day's feels-like
//! value as the exact mean of the daily apparent-temperature extremes,
//! builds the two request URLs, and renders the record — or the diagnostic
//! for any failure — as text.
//!
//! Payload numbers are carried as decimal text and handled as scaled
//! integers, so every step of the arithmetic is exact and verified. The
//! surrounding program is expected to perform the network calls and hand
//! status codes and decoded payloads to `pipeline`, which makes every
//! decision over them.

pub mod condition;
pub mod dec;
pub mod json;
pub mod nums;
pub mod pipeline;
pub mod timefmt;
pub mod weather;
