//! The current-weather record: extracting it from a JSON payload and
//! rendering it as text.

use crate::condition::{spec_condition_name, spec_condition_of, WeatherCondition};
use crate::dec::{
    dec_text, lemma_mean_halves, lemma_parse_dec_wf, mean, num_at, parse_dec, spec_dec_text,
    spec_mean, spec_parse_dec, Dec,
};
use crate::json::{obj_get, spec_lookup, JsonVal};
use crate::nums::{parse_u64, spec_parse_u64};
use crate::timefmt::{utc_text_of, utc_time_text, UTC_SECS_MAX};
use vstd::prelude::*;

verus! {

/// One observation of the current weather, with the day's feels-like value.
#[derive(Clone, Copy, Debug, PartialEq, Eq, Structural)]
pub struct CurrentWeather {
    /// Current temperature, degrees Celsius.
    pub temperature: Dec,
    /// Mean of the day's apparent-temperature extremes, degrees Celsius.
    pub feels_like: Dec,
    /// Current wind speed, km/h.
    pub wind_speed: Dec,
    /// The sky/precipitation category.
    pub condition: WeatherCondition,
    /// Unix timestamp of the observation.
    pub observed_at: u64,
}

/// Why a payload yielded no record: the wrong shape anywhere (a missing
/// field, a wrong type, an empty array, an unparsable number), or a weather
/// code outside every known range.
#[derive(Clone, Copy, Debug, PartialEq, Eq, Structural)]
pub enum ParseFailure {
    Shape,
    UnknownCode(u64),
}

impl CurrentWeather {
    /// Bounds carried by every record built from a payload.
    pub open spec fn wf(self) -> bool {
        self.temperature.wf() && self.wind_speed.wf() && self.feels_like.render_wf()
    }

    /// Assemble a record from its parts.
    pub fn new(
        temperature: Dec,
        feels_like: Dec,
        wind_speed: Dec,
        condition: WeatherCondition,
        observed_at: u64,
    ) -> (r: CurrentWeather)
        ensures
            r == (CurrentWeather { temperature, feels_like, wind_speed, condition, observed_at }),
    {
        CurrentWeather { temperature, feels_like, wind_speed, condition, observed_at }
    }
}

/// The object fields of a value, if it is an object.
pub open spec fn spec_obj_fields(v: Option<JsonVal>) -> Option<Seq<(String, JsonVal)>> {
    match v {
        Some(JsonVal::Obj(f)) => Some(f@),
        _ => None,
    }
}

/// The first element of a value, if it is a nonempty array.
pub open spec fn spec_first_elem(v: Option<JsonVal>) -> Option<JsonVal> {
    match v {
        Some(JsonVal::Arr(items)) => if items@.len() >= 1 {
            Some(items@[0])
        } else {
            None
        },
        _ => None,
    }
}

/// The decimal text of a value, if it is a number.
pub open spec fn spec_num_text(v: Option<JsonVal>) -> Option<Seq<char>> {
    match v {
        Some(JsonVal::Num(t)) => Some(t@),
        _ => None,
    }
}

/// The parsed daily apparent-temperature extremes (max, then min) of a
/// payload, when they are present and parse.
pub open spec fn spec_daily_extremes(v: JsonVal) -> Option<(Dec, Dec)> {
    match v {
        JsonVal::Obj(top) => match spec_obj_fields(spec_lookup(top@, "daily"@)) {
            Some(dlf) => {
                let a = spec_num_text(
                    spec_first_elem(spec_lookup(dlf, "apparent_temperature_max"@)),
                );
                let b = spec_num_text(
                    spec_first_elem(spec_lookup(dlf, "apparent_temperature_min"@)),
                );
                match (a, b) {
                    (Some(a), Some(b)) => match (spec_parse_dec(a), spec_parse_dec(b)) {
                        (Some(da), Some(db)) => Some((da, db)),
                        _ => None,
                    },
                    _ => None,
                }
            },
            None => None,
        },
        _ => None,
    }
}

/// What a payload yields. The extraction is all-or-nothing: every required
/// field must be present with the right type, or the whole parse fails with
/// `Shape`; a weather code outside the known ranges fails with
/// `UnknownCode`. The feels-like value is the exact mean of the daily
/// apparent-temperature extremes; the payload's own instantaneous
/// apparent-temperature field, if any, plays no part.
pub open spec fn spec_weather_of(v: JsonVal) -> Result<CurrentWeather, ParseFailure> {
    match v {
        JsonVal::Obj(top) => {
            let cw = spec_obj_fields(spec_lookup(top@, "current_weather"@));
            match (cw, spec_daily_extremes(v)) {
                (Some(cwf), Some((d_tmax, d_tmin))) => {
                    let temp = spec_num_text(spec_lookup(cwf, "temperature"@));
                    let wind = spec_num_text(spec_lookup(cwf, "windspeed"@));
                    let code = spec_num_text(spec_lookup(cwf, "weathercode"@));
                    let time = spec_num_text(spec_lookup(cwf, "time"@));
                    match (temp, wind, code, time) {
                        (Some(temp), Some(wind), Some(code), Some(time)) => {
                            match (
                                spec_parse_dec(temp),
                                spec_parse_dec(wind),
                                spec_parse_u64(code),
                                spec_parse_u64(time),
                            ) {
                                (Some(d_temp), Some(d_wind), Some(code_v), Some(time_v)) => {
                                    match spec_condition_of(code_v) {
                                        Some(c) => Ok(
                                            CurrentWeather {
                                                temperature: d_temp,
                                                feels_like: spec_mean(d_tmax, d_tmin),
                                                wind_speed: d_wind,
                                                condition: c,
                                                observed_at: time_v,
                                            },
                                        ),
                                        None => Err(ParseFailure::UnknownCode(code_v)),
                                    }
                                },
                                _ => Err(ParseFailure::Shape),
                            }
                        },
                        _ => Err(ParseFailure::Shape),
                    }
                },
                _ => Err(ParseFailure::Shape),
            }
        },
        _ => Err(ParseFailure::Shape),
    }
}

/// Extract a current-weather record from a payload. Mirrors
/// `spec_weather_of` exactly.
pub fn from_json(v: &JsonVal) -> (r: Result<CurrentWeather, ParseFailure>)
    ensures
        r == spec_weather_of(*v),
        r matches Ok(w) ==> w.wf(),
{
    let top = match v {
        JsonVal::Obj(f) => f,
        _ => {
            return Err(ParseFailure::Shape);
        },
    };
    let cwf = match obj_get(top, &String::from_str("current_weather")) {
        Some(JsonVal::Obj(f)) => f,
        _ => {
            return Err(ParseFailure::Shape);
        },
    };
    let dlf = match obj_get(top, &String::from_str("daily")) {
        Some(JsonVal::Obj(f)) => f,
        _ => {
            return Err(ParseFailure::Shape);
        },
    };
    let tmax_arr = match obj_get(dlf, &String::from_str("apparent_temperature_max")) {
        Some(JsonVal::Arr(a)) => a,
        _ => {
            return Err(ParseFailure::Shape);
        },
    };
    let tmin_arr = match obj_get(dlf, &String::from_str("apparent_temperature_min")) {
        Some(JsonVal::Arr(a)) => a,
        _ => {
            return Err(ParseFailure::Shape);
        },
    };
    if tmax_arr.len() < 1 || tmin_arr.len() < 1 {
        return Err(ParseFailure::Shape);
    }
    let tmax_txt = match &tmax_arr[0] {
        JsonVal::Num(t) => t,
        _ => {
            return Err(ParseFailure::Shape);
        },
    };
    let tmin_txt = match &tmin_arr[0] {
        JsonVal::Num(t) => t,
        _ => {
            return Err(ParseFailure::Shape);
        },
    };
    let temp_txt = match obj_get(cwf, &String::from_str("temperature")) {
        Some(JsonVal::Num(t)) => t,
        _ => {
            return Err(ParseFailure::Shape);
        },
    };
    let wind_txt = match obj_get(cwf, &String::from_str("windspeed")) {
        Some(JsonVal::Num(t)) => t,
        _ => {
            return Err(ParseFailure::Shape);
        },
    };
    let code_txt = match obj_get(cwf, &String::from_str("weathercode")) {
        Some(JsonVal::Num(t)) => t,
        _ => {
            return Err(ParseFailure::Shape);
        },
    };
    let time_txt = match obj_get(cwf, &String::from_str("time")) {
        Some(JsonVal::Num(t)) => t,
        _ => {
            return Err(ParseFailure::Shape);
        },
    };
    let d_tmax = match parse_dec(tmax_txt.as_str()) {
        Some(d) => d,
        None => {
            return Err(ParseFailure::Shape);
        },
    };
    let d_tmin = match parse_dec(tmin_txt.as_str()) {
        Some(d) => d,
        None => {
            return Err(ParseFailure::Shape);
        },
    };
    let d_temp = match parse_dec(temp_txt.as_str()) {
        Some(d) => d,
        None => {
            return Err(ParseFailure::Shape);
        },
    };
    let d_wind = match parse_dec(wind_txt.as_str()) {
        Some(d) => d,
        None => {
            return Err(ParseFailure::Shape);
        },
    };
    let code_v = match parse_u64(code_txt.as_str()) {
        Some(c) => c,
        None => {
            return Err(ParseFailure::Shape);
        },
    };
    let time_v = match parse_u64(time_txt.as_str()) {
        Some(t) => t,
        None => {
            return Err(ParseFailure::Shape);
        },
    };
    let condition = match WeatherCondition::from_code(code_v) {
        Some(c) => c,
        None => {
            return Err(ParseFailure::UnknownCode(code_v));
        },
    };
    proof {
        lemma_parse_dec_wf(tmax_txt@);
        lemma_parse_dec_wf(tmin_txt@);
        lemma_parse_dec_wf(temp_txt@);
        lemma_parse_dec_wf(wind_txt@);
    }
    let feels_like = mean(&d_tmax, &d_tmin);
    Ok(
        CurrentWeather {
            temperature: d_temp,
            feels_like,
            wind_speed: d_wind,
            condition,
            observed_at: time_v,
        },
    )
}

/// Whenever a payload yields a record, the record's feels-like value is the
/// exact mean of the payload's daily apparent-temperature extremes — twice
/// its value equals their sum — and depends on nothing else in the payload.
pub proof fn lemma_feels_like_is_mean(v: JsonVal, w: CurrentWeather, tmax: Dec, tmin: Dec)
    requires
        spec_weather_of(v) == Ok::<CurrentWeather, ParseFailure>(w),
        spec_daily_extremes(v) == Some((tmax, tmin)),
    ensures
        w.feels_like == spec_mean(tmax, tmin),
        2 * num_at(w.feels_like, 8) == num_at(tmax, 8) + num_at(tmin, 8),
{
    match v {
        JsonVal::Obj(top) => {
            match spec_obj_fields(spec_lookup(top@, "daily"@)) {
                Some(dlf) => {
                    let a = spec_num_text(
                        spec_first_elem(spec_lookup(dlf, "apparent_temperature_max"@)),
                    );
                    let b = spec_num_text(
                        spec_first_elem(spec_lookup(dlf, "apparent_temperature_min"@)),
                    );
                    match (a, b) {
                        (Some(a), Some(b)) => {
                            lemma_parse_dec_wf(a);
                            lemma_parse_dec_wf(b);
                            lemma_mean_halves(tmax, tmin);
                        },
                        _ => {},
                    }
                },
                None => {},
            }
        },
        _ => {},
    }
}

/// The rendered report: fixed labels around the record's values, ending with
/// the given timestamp text.
pub open spec fn spec_report(w: CurrentWeather, time_text: Seq<char>) -> Seq<char> {
    "Current Weather is:\n    Temperature: "@ + spec_dec_text(w.temperature)
        + " \u{b0}C\n    Wind Speed: "@ + spec_dec_text(w.wind_speed) + " kmh\n    Conditions: "@
        + spec_condition_name(w.condition) + "\n    Today is going to feel like: "@
        + spec_dec_text(w.feels_like) + " \u{b0}C\nLast updated at: "@ + time_text + "\n"@
}

/// Render the report around already-formatted timestamp text.
pub fn render_report(w: &CurrentWeather, time_text: &str) -> (r: String)
    requires
        w.wf(),
    ensures
        r@ == spec_report(*w, time_text@),
{
    let mut out = String::new();
    out.append("Current Weather is:\n    Temperature: ");
    let temp = dec_text(&w.temperature);
    out.append(temp.as_str());
    out.append(" \u{b0}C\n    Wind Speed: ");
    let wind = dec_text(&w.wind_speed);
    out.append(wind.as_str());
    out.append(" kmh\n    Conditions: ");
    out.append(w.condition.name());
    out.append("\n    Today is going to feel like: ");
    let feels = dec_text(&w.feels_like);
    out.append(feels.as_str());
    out.append(" \u{b0}C\nLast updated at: ");
    out.append(time_text);
    out.append("\n");
    proof {
        assert(out@ =~= spec_report(*w, time_text@));
    }
    out
}

/// Render the report, formatting the observation time as UTC text through
/// chrono. Succeeds exactly when the timestamp lies within the range chrono
/// can represent.
pub fn render(w: &CurrentWeather) -> (r: Option<String>)
    requires
        w.wf(),
    ensures
        r is Some <==> w.observed_at <= UTC_SECS_MAX,
        r matches Some(s) ==> s@ == spec_report(*w, utc_text_of(w.observed_at as int)),
{
    if w.observed_at > UTC_SECS_MAX as u64 {
        return None;
    }
    match utc_time_text(w.observed_at as i64) {
        Some(t) => Some(render_report(w, t.as_str())),
        None => None,
    }
}

} // verus!
