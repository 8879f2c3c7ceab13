//! The run's decisions: what each service response leads to — a parsed
//! location, a weather record, or a fatal error with its diagnostic text.
//! The surrounding program performs the network calls and hands the status
//! code and decoded payload here; every decision over them is made in this
//! module.

use crate::json::{obj_get, spec_lookup, JsonVal};
use crate::nums::{fmt_u64, spec_digits};
use crate::timefmt::{utc_text_of, UTC_SECS_MAX};
use crate::weather::{
    from_json, spec_num_text, spec_report, spec_weather_of, CurrentWeather, ParseFailure,
};
use vstd::prelude::*;

verus! {

/// A resolved location: latitude and longitude, kept as the decimal text the
/// geolocation service answered with.
#[derive(Clone, Debug)]
pub struct Geo {
    pub lat: String,
    pub lon: String,
}

/// Every way a run can fail. Each variant carries the context its diagnostic
/// line reports.
#[derive(Clone, Debug)]
pub enum WeatherError {
    /// The public IP address could not be determined.
    IpLookup,
    /// The geolocation service answered with a non-success status.
    GeoStatus { status: u16, ip: String },
    /// The geolocation response carried no numeric `lat` and `lon`.
    GeoShape,
    /// The weather service answered with a non-success status; `reason` is
    /// the error text its body carried, when the body had the expected shape.
    ForecastStatus { status: u16, url: String, reason: Option<String> },
    /// The weather payload failed the all-or-nothing extraction.
    PayloadShape,
    /// The weather payload carried a code outside every known range.
    UnknownCode { code: u64 },
    /// The observation time lies outside the range the formatter accepts.
    TimeOutOfRange,
}

/// The latitude and longitude texts of a geolocation payload, when both are
/// present as numbers.
pub open spec fn spec_geo_of(v: JsonVal) -> Option<(Seq<char>, Seq<char>)> {
    match v {
        JsonVal::Obj(f) => {
            let la = spec_num_text(spec_lookup(f@, "lat"@));
            let lo = spec_num_text(spec_lookup(f@, "lon"@));
            match (la, lo) {
                (Some(la), Some(lo)) => Some((la, lo)),
                _ => None,
            }
        },
        _ => None,
    }
}

/// `spec_geo_of` over an optional payload: a body that did not decode has no
/// coordinates.
pub open spec fn spec_geo_vals(b: Option<JsonVal>) -> Option<(Seq<char>, Seq<char>)> {
    match b {
        Some(v) => spec_geo_of(v),
        None => None,
    }
}

/// What a weather body yields: `spec_weather_of` over an optional payload.
pub open spec fn spec_weather_vals(b: Option<JsonVal>) -> Result<CurrentWeather, ParseFailure> {
    match b {
        Some(v) => spec_weather_of(v),
        None => Err(ParseFailure::Shape),
    }
}

/// The error text of a failed weather body: present exactly when the body is
/// an object with a boolean `error` field and a string `reason` field.
pub open spec fn spec_reason_of(b: Option<JsonVal>) -> Option<Seq<char>> {
    match b {
        Some(JsonVal::Obj(f)) => {
            match (spec_lookup(f@, "error"@), spec_lookup(f@, "reason"@)) {
                (Some(JsonVal::Bool(_)), Some(JsonVal::Text(t))) => Some(t@),
                _ => None,
            }
        },
        _ => None,
    }
}

/// The geolocation request URL for an IP address.
pub open spec fn spec_ip_api_url(ip: Seq<char>) -> Seq<char> {
    "http://ip-api.com/json/"@ + ip
}

pub fn ip_api_url(ip: &str) -> (r: String)
    ensures
        r@ == spec_ip_api_url(ip@),
{
    let mut out = String::new();
    out.append("http://ip-api.com/json/");
    out.append(ip);
    out
}

/// The forecast request URL for a location. The request pins the
/// America/Sao_Paulo timezone whatever location was resolved — kept for
/// compatibility with the service contract this library mirrors, though a
/// resolved-location timezone would serve callers better; the daily
/// apparent-temperature extremes and the current weather come in unix-time
/// format.
pub open spec fn spec_forecast_url(lat: Seq<char>, lon: Seq<char>) -> Seq<char> {
    "https://api.open-meteo.com/v1/forecast?latitude="@ + lat + "&longitude="@ + lon
        + "&daily=apparent_temperature_max,apparent_temperature_min,sunset&current_weather=true&timeformat=unixtime&timezone=America%2FSao_Paulo"@
}

pub fn forecast_url(g: &Geo) -> (r: String)
    ensures
        r@ == spec_forecast_url(g.lat@, g.lon@),
{
    let mut out = String::new();
    out.append("https://api.open-meteo.com/v1/forecast?latitude=");
    out.append(g.lat.as_str());
    out.append("&longitude=");
    out.append(g.lon.as_str());
    out.append(
        "&daily=apparent_temperature_max,apparent_temperature_min,sunset&current_weather=true&timeformat=unixtime&timezone=America%2FSao_Paulo",
    );
    out
}

/// Decide what the geolocation response means. A non-success status is fatal
/// and reports the status with the IP that was used; a success whose body
/// lacks numeric `lat`/`lon` is fatal — never a default coordinate.
pub fn geo_step(status: u16, body: Option<&JsonVal>, ip: &str) -> (r: Result<Geo, WeatherError>)
    ensures
        ({
            let bv = match body {
                Some(v) => Some(*v),
                None => None::<JsonVal>,
            };
            &&& (r matches Ok(g) ==> (spec_geo_vals(bv) matches Some(p) && status == 200
                && g.lat@ == p.0 && g.lon@ == p.1))
            &&& (status == 200 && spec_geo_vals(bv) is Some ==> r is Ok)
            &&& (status != 200 ==> (r matches Err(e) && e matches WeatherError::GeoStatus {
                status: st,
                ip: ipe,
            } && st == status && ipe@ == ip@))
            &&& (status == 200 && spec_geo_vals(bv) is None ==> (r matches Err(e) && e matches
                WeatherError::GeoShape))
        }),
{
    if status != 200 {
        return Err(WeatherError::GeoStatus { status, ip: String::from_str(ip) });
    }
    let v = match body {
        Some(v) => v,
        None => {
            return Err(WeatherError::GeoShape);
        },
    };
    let f = match v {
        JsonVal::Obj(f) => f,
        _ => {
            return Err(WeatherError::GeoShape);
        },
    };
    let lat = match obj_get(f, &String::from_str("lat")) {
        Some(JsonVal::Num(t)) => t,
        _ => {
            return Err(WeatherError::GeoShape);
        },
    };
    let lon = match obj_get(f, &String::from_str("lon")) {
        Some(JsonVal::Num(t)) => t,
        _ => {
            return Err(WeatherError::GeoShape);
        },
    };
    Ok(Geo { lat: lat.clone(), lon: lon.clone() })
}

/// Decide what the forecast response means. A non-success status is fatal
/// and reports the status, the URL that was used, and whatever error text
/// the body carried; a success hands the body to the all-or-nothing
/// extraction, so no partial record can come out.
pub fn forecast_step(status: u16, body: Option<&JsonVal>, url: &str) -> (r: Result<
    CurrentWeather,
    WeatherError,
>)
    ensures
        ({
            let bv = match body {
                Some(v) => Some(*v),
                None => None::<JsonVal>,
            };
            &&& (status != 200 ==> (r matches Err(e) && e matches WeatherError::ForecastStatus {
                status: st,
                url: ue,
                reason: re,
            } && st == status && ue@ == url@ && (match (re, spec_reason_of(bv)) {
                (Some(rs), Some(ss)) => rs@ == ss,
                (None, None) => true,
                _ => false,
            })))
            &&& (status == 200 ==> match spec_weather_vals(bv) {
                Ok(w) => r matches Ok(rw) && rw == w,
                Err(ParseFailure::Shape) => r matches Err(e) && e matches
                    WeatherError::PayloadShape,
                Err(ParseFailure::UnknownCode(c)) => r matches Err(e) && e matches
                    WeatherError::UnknownCode { code } && code == c,
            })
            &&& (r matches Ok(w) ==> w.wf())
        }),
{
    if status != 200 {
        let reason: Option<String> = match body {
            Some(JsonVal::Obj(f)) => {
                match (obj_get(f, &String::from_str("error")), obj_get(
                    f,
                    &String::from_str("reason"),
                )) {
                    (Some(JsonVal::Bool(_)), Some(JsonVal::Text(t))) => Some(t.clone()),
                    _ => None,
                }
            },
            _ => None,
        };
        return Err(
            WeatherError::ForecastStatus { status, url: String::from_str(url), reason },
        );
    }
    let v = match body {
        Some(v) => v,
        None => {
            return Err(WeatherError::PayloadShape);
        },
    };
    match from_json(v) {
        Ok(w) => Ok(w),
        Err(ParseFailure::Shape) => Err(WeatherError::PayloadShape),
        Err(ParseFailure::UnknownCode(code)) => Err(WeatherError::UnknownCode { code }),
    }
}

/// Decide the whole outcome of the forecast response: the fully rendered
/// report on success, the fatal error otherwise. The report is owed — and
/// only exists — for a success status whose body passes the all-or-nothing
/// extraction with an observation time the formatter can represent, so no
/// partial weather output can ever be produced; every failure pins its
/// error variant.
pub fn report_step(status: u16, body: Option<&JsonVal>, url: &str) -> (r: Result<
    String,
    WeatherError,
>)
    ensures
        ({
            let bv = match body {
                Some(v) => Some(*v),
                None => None::<JsonVal>,
            };
            &&& (r matches Ok(s) ==> (spec_weather_vals(bv) matches Ok(w) && status == 200 && s@
                == spec_report(w, utc_text_of(w.observed_at as int))))
            &&& (status != 200 ==> (r matches Err(e) && e matches WeatherError::ForecastStatus {
                status: st,
                url: ue,
                reason: _,
            } && st == status && ue@ == url@))
            &&& (status == 200 ==> match spec_weather_vals(bv) {
                Ok(w) => (r is Ok <==> w.observed_at <= UTC_SECS_MAX) && (w.observed_at
                    > UTC_SECS_MAX ==> (r matches Err(e) && e matches
                WeatherError::TimeOutOfRange)),
                Err(ParseFailure::Shape) => (r matches Err(e) && e matches
                    WeatherError::PayloadShape),
                Err(ParseFailure::UnknownCode(c)) => (r matches Err(e) && e matches
                    WeatherError::UnknownCode { code } && code == c),
            })
        }),
{
    let w = match forecast_step(status, body, url) {
        Ok(w) => w,
        Err(e) => {
            return Err(e);
        },
    };
    match crate::weather::render(&w) {
        Some(s) => Ok(s),
        None => Err(WeatherError::TimeOutOfRange),
    }
}

/// The diagnostic line each failure prints.
pub open spec fn spec_error_text(e: WeatherError) -> Seq<char> {
    match e {
        WeatherError::IpLookup => "Error getting ip address"@,
        WeatherError::GeoStatus { status, ip } => "Error Getting Location data from API: ip-api.com. Error Code: "@
            + spec_digits(status as nat) + "\nEnsure a valid ip address was used. IP Address used: "@
            + ip@,
        WeatherError::GeoShape => "Could not read coordinates from the geolocation response"@,
        WeatherError::ForecastStatus { status, url, reason } => "Error Getting Weather from API. Error Code: "@
            + spec_digits(status as nat) + "\nURL used: "@ + url@ + (match reason {
            Some(t) => "\nAPI Error Message: "@ + t@,
            None => Seq::<char>::empty(),
        }),
        WeatherError::PayloadShape => "Catastrophic Failure"@,
        WeatherError::UnknownCode { code } => "Unexpected Weather Code "@ + spec_digits(
            code as nat,
        ) + " received from api.\nProgram closing."@,
        WeatherError::TimeOutOfRange => "Observation time out of range"@,
    }
}

/// Render a failure's diagnostic line.
pub fn error_text(e: &WeatherError) -> (r: String)
    ensures
        r@ == spec_error_text(*e),
{
    let mut out = String::new();
    match e {
        WeatherError::IpLookup => {
            out.append("Error getting ip address");
        },
        WeatherError::GeoStatus { status, ip } => {
            out.append("Error Getting Location data from API: ip-api.com. Error Code: ");
            let st = fmt_u64(*status as u64);
            out.append(st.as_str());
            out.append("\nEnsure a valid ip address was used. IP Address used: ");
            out.append(ip.as_str());
        },
        WeatherError::GeoShape => {
            out.append("Could not read coordinates from the geolocation response");
        },
        WeatherError::ForecastStatus { status, url, reason } => {
            out.append("Error Getting Weather from API. Error Code: ");
            let st = fmt_u64(*status as u64);
            out.append(st.as_str());
            out.append("\nURL used: ");
            out.append(url.as_str());
            match reason {
                Some(t) => {
                    out.append("\nAPI Error Message: ");
                    out.append(t.as_str());
                },
                None => {},
            }
        },
        WeatherError::PayloadShape => {
            out.append("Catastrophic Failure");
        },
        WeatherError::UnknownCode { code } => {
            out.append("Unexpected Weather Code ");
            let cd = fmt_u64(*code);
            out.append(cd.as_str());
            out.append(" received from api.\nProgram closing.");
        },
        WeatherError::TimeOutOfRange => {
            out.append("Observation time out of range");
        },
    }
    proof {
        assert(out@ =~= spec_error_text(*e));
    }
    out
}

/// Two runs that see the same forecast response produce the same record and
/// the same rendered text, timestamp line included: what a run prints is a
/// function of the service's data alone, so consecutive runs against
/// unchanged backend data are identical.
pub proof fn lemma_runs_identical(
    body: Option<JsonVal>,
    other_body: Option<JsonVal>,
    w: CurrentWeather,
    other_w: CurrentWeather,
)
    requires
        body == other_body,
        spec_weather_vals(body) == Ok::<CurrentWeather, ParseFailure>(w),
        spec_weather_vals(other_body) == Ok::<CurrentWeather, ParseFailure>(other_w),
    ensures
        w == other_w,
        spec_report(w, utc_text_of(w.observed_at as int)) == spec_report(
            other_w,
            utc_text_of(other_w.observed_at as int),
        ),
{
}

} // verus!
