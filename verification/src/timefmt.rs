//! Rendering a unix timestamp as human-readable UTC text, through chrono.

use vstd::prelude::*;

verus! {

/// The timestamp of the earliest UTC datetime chrono can represent
/// (midnight opening year -262143).
pub const UTC_SECS_MIN: i64 = -8334601228800;

/// The timestamp of the latest whole second chrono can represent
/// (the last second of year 262142).
pub const UTC_SECS_MAX: i64 = 8210266876799;

/// The text chrono renders for the UTC instant `secs` seconds after the unix
/// epoch (of the shape `2015-05-15 00:00:00 UTC`). A fixed function of the
/// seconds value alone.
pub uninterp spec fn utc_text_of(secs: int) -> Seq<char>;

/// Relies on chrono's `DateTime::<Utc>::from_timestamp`, which returns
/// `Some` exactly when the seconds fall within the datetimes chrono can
/// represent — with the nanosecond part fixed at zero, that is
/// `UTC_SECS_MIN..=UTC_SECS_MAX`, the timestamps of its minimum and maximum
/// UTC datetimes — and on the `Display` of `DateTime<Utc>`, whose text
/// depends on the instant alone, here a function of `secs`.
#[verifier::external_body]
pub fn utc_time_text(secs: i64) -> (r: Option<String>)
    ensures
        r is Some <==> UTC_SECS_MIN <= secs <= UTC_SECS_MAX,
        r matches Some(t) ==> t@ == utc_text_of(secs as int),
{
    match chrono::DateTime::<chrono::Utc>::from_timestamp(secs, 0) {
        Some(d) => Some(d.to_string()),
        None => None,
    }
}

} // verus!
