//! The closed set of weather categories and the numeric-code table that
//! selects one of them.

use vstd::prelude::*;

verus! {

/// A coarse sky/precipitation category, derived from the provider's numeric
/// weather code.
#[derive(Clone, Copy, Debug, PartialEq, Eq, Structural)]
pub enum WeatherCondition {
    Clear,
    Cloudy,
    Overcast,
    Fog,
    Drizzle,
    Rainy,
    Snow,
    Showers,
    Thunderstorm,
}

/// The fixed classification table: which category, if any, a numeric weather
/// code falls under. Codes outside every listed range map to `None`.
pub open spec fn spec_condition_of(code: u64) -> Option<WeatherCondition> {
    if code == 0 || code == 1 {
        Some(WeatherCondition::Clear)
    } else if code == 2 {
        Some(WeatherCondition::Cloudy)
    } else if code == 3 {
        Some(WeatherCondition::Overcast)
    } else if code == 45 || code == 48 {
        Some(WeatherCondition::Fog)
    } else if 51 <= code && code <= 57 {
        Some(WeatherCondition::Drizzle)
    } else if 61 <= code && code <= 67 {
        Some(WeatherCondition::Rainy)
    } else if 71 <= code && code <= 77 {
        Some(WeatherCondition::Snow)
    } else if 80 <= code && code <= 86 {
        Some(WeatherCondition::Showers)
    } else if 95 <= code && code <= 99 {
        Some(WeatherCondition::Thunderstorm)
    } else {
        None
    }
}

impl WeatherCondition {
    /// Classify a numeric weather code. Returns `None` exactly when the code
    /// lies outside every known range; a caller must treat that as a fatal
    /// input error, never as a default category.
    pub fn from_code(code: u64) -> (r: Option<WeatherCondition>)
        ensures
            r == spec_condition_of(code),
    {
        match code {
            0 | 1 => Some(WeatherCondition::Clear),
            2 => Some(WeatherCondition::Cloudy),
            3 => Some(WeatherCondition::Overcast),
            45 | 48 => Some(WeatherCondition::Fog),
            51..=57 => Some(WeatherCondition::Drizzle),
            61..=67 => Some(WeatherCondition::Rainy),
            71..=77 => Some(WeatherCondition::Snow),
            80..=86 => Some(WeatherCondition::Showers),
            95..=99 => Some(WeatherCondition::Thunderstorm),
            _ => None,
        }
    }

    /// The category's display name.
    pub fn name(&self) -> (r: &'static str)
        ensures
            r@ == spec_condition_name(*self),
    {
        match self {
            WeatherCondition::Clear => "Clear",
            WeatherCondition::Cloudy => "Cloudy",
            WeatherCondition::Overcast => "Overcast",
            WeatherCondition::Fog => "Fog",
            WeatherCondition::Drizzle => "Drizzle",
            WeatherCondition::Rainy => "Rainy",
            WeatherCondition::Snow => "Snow",
            WeatherCondition::Showers => "Showers",
            WeatherCondition::Thunderstorm => "Thunderstorm",
        }
    }
}

/// The display name of each category, as a sequence of characters.
pub open spec fn spec_condition_name(c: WeatherCondition) -> Seq<char> {
    match c {
        WeatherCondition::Clear => "Clear"@,
        WeatherCondition::Cloudy => "Cloudy"@,
        WeatherCondition::Overcast => "Overcast"@,
        WeatherCondition::Fog => "Fog"@,
        WeatherCondition::Drizzle => "Drizzle"@,
        WeatherCondition::Rainy => "Rainy"@,
        WeatherCondition::Snow => "Snow"@,
        WeatherCondition::Showers => "Showers"@,
        WeatherCondition::Thunderstorm => "Thunderstorm"@,
    }
}

} // verus!
