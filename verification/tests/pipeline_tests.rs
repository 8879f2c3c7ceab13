use weather_report::condition::WeatherCondition;
use weather_report::dec::Dec;
use weather_report::json::JsonVal;
use weather_report::pipeline::{
    error_text, forecast_step, forecast_url, geo_step, ip_api_url, report_step, Geo, WeatherError,
};
use weather_report::weather::{from_json, render, CurrentWeather, ParseFailure};

fn num(s: &str) -> JsonVal {
    JsonVal::Num(s.to_string())
}

fn weather_payload(
    temp: &str,
    wind: &str,
    code: &str,
    time: &str,
    tmax: &str,
    tmin: &str,
) -> JsonVal {
    JsonVal::Obj(vec![
        (
            "current_weather".to_string(),
            JsonVal::Obj(vec![
                ("temperature".to_string(), num(temp)),
                ("windspeed".to_string(), num(wind)),
                ("weathercode".to_string(), num(code)),
                ("time".to_string(), num(time)),
            ]),
        ),
        (
            "daily".to_string(),
            JsonVal::Obj(vec![
                (
                    "apparent_temperature_max".to_string(),
                    JsonVal::Arr(vec![num(tmax)]),
                ),
                (
                    "apparent_temperature_min".to_string(),
                    JsonVal::Arr(vec![num(tmin)]),
                ),
            ]),
        ),
    ])
}

#[test]
fn well_formed_payload_renders_in_utc() {
    let payload = weather_payload("25.0", "10.0", "1", "1700000000", "30.0", "20.0");
    let w = from_json(&payload).unwrap();
    assert_eq!(w.temperature, Dec { mant: 250, scale: 1 });
    assert_eq!(w.wind_speed, Dec { mant: 100, scale: 1 });
    assert_eq!(w.feels_like, Dec { mant: 250, scale: 1 });
    assert_eq!(w.condition, WeatherCondition::Clear);
    assert_eq!(w.observed_at, 1700000000);
    let text = render(&w).unwrap();
    assert_eq!(
        text,
        "Current Weather is:\n    Temperature: 25.0 \u{b0}C\n    Wind Speed: 10.0 kmh\n    Conditions: Clear\n    Today is going to feel like: 25.0 \u{b0}C\nLast updated at: 2023-11-14 22:13:20 UTC\n"
    );
}

#[test]
fn feels_like_ignores_current_apparent_temperature() {
    // An extra apparent_temperature field inside current_weather plays no part.
    let mut payload = weather_payload("25.0", "10.0", "1", "1700000000", "31.0", "20.0");
    if let JsonVal::Obj(fields) = &mut payload {
        if let JsonVal::Obj(cw) = &mut fields[0].1 {
            cw.push(("apparent_temperature".to_string(), num("99.9")));
        }
    }
    let w = from_json(&payload).unwrap();
    assert_eq!(w.feels_like, Dec { mant: 255, scale: 1 });
}

#[test]
fn missing_field_fails_the_whole_parse() {
    let keys = [
        "temperature",
        "windspeed",
        "weathercode",
        "time",
    ];
    for missing in keys {
        let payload = weather_payload("25.0", "10.0", "1", "1700000000", "30.0", "20.0");
        let stripped = match payload {
            JsonVal::Obj(fields) => JsonVal::Obj(
                fields
                    .into_iter()
                    .map(|(k, v)| {
                        if k == "current_weather" {
                            let kept = match v {
                                JsonVal::Obj(cw) => JsonVal::Obj(
                                    cw.into_iter().filter(|(ck, _)| ck != missing).collect(),
                                ),
                                other => other,
                            };
                            (k, kept)
                        } else {
                            (k, v)
                        }
                    })
                    .collect(),
            ),
            other => other,
        };
        assert_eq!(from_json(&stripped), Err(ParseFailure::Shape));
    }
}

#[test]
fn wrong_types_and_empty_arrays_fail_the_whole_parse() {
    // Temperature as a string.
    let mut payload = weather_payload("25.0", "10.0", "1", "1700000000", "30.0", "20.0");
    if let JsonVal::Obj(fields) = &mut payload {
        if let JsonVal::Obj(cw) = &mut fields[0].1 {
            cw[0].1 = JsonVal::Text("25.0".to_string());
        }
    }
    assert_eq!(from_json(&payload), Err(ParseFailure::Shape));

    // Empty daily array.
    let mut payload = weather_payload("25.0", "10.0", "1", "1700000000", "30.0", "20.0");
    if let JsonVal::Obj(fields) = &mut payload {
        if let JsonVal::Obj(daily) = &mut fields[1].1 {
            daily[0].1 = JsonVal::Arr(vec![]);
        }
    }
    assert_eq!(from_json(&payload), Err(ParseFailure::Shape));

    // A non-integer weather code.
    let payload = weather_payload("25.0", "10.0", "1.0", "1700000000", "30.0", "20.0");
    assert_eq!(from_json(&payload), Err(ParseFailure::Shape));

    // Not an object at all.
    assert_eq!(from_json(&JsonVal::Null), Err(ParseFailure::Shape));
}

#[test]
fn unknown_weather_code_is_its_own_failure() {
    let payload = weather_payload("25.0", "10.0", "42", "1700000000", "30.0", "20.0");
    assert_eq!(from_json(&payload), Err(ParseFailure::UnknownCode(42)));
}

#[test]
fn geo_success_keeps_the_coordinate_text() {
    let body = JsonVal::Obj(vec![
        ("status".to_string(), JsonVal::Text("success".to_string())),
        ("lat".to_string(), num("-23.5505")),
        ("lon".to_string(), num("-46.6333")),
    ]);
    let g = geo_step(200, Some(&body), "203.0.113.9").unwrap();
    assert_eq!(g.lat, "-23.5505");
    assert_eq!(g.lon, "-46.6333");
}

#[test]
fn geo_missing_coordinate_is_fatal() {
    let body = JsonVal::Obj(vec![("lat".to_string(), num("-23.5505"))]);
    let r = geo_step(200, Some(&body), "203.0.113.9");
    assert!(matches!(r, Err(WeatherError::GeoShape)));
    let body = JsonVal::Obj(vec![("lon".to_string(), num("-46.6333"))]);
    let r = geo_step(200, Some(&body), "203.0.113.9");
    assert!(matches!(r, Err(WeatherError::GeoShape)));
    let r = geo_step(200, None, "203.0.113.9");
    assert!(matches!(r, Err(WeatherError::GeoShape)));
}

#[test]
fn geo_non_success_status_reports_status_and_ip() {
    let body = JsonVal::Obj(vec![
        ("lat".to_string(), num("-23.5505")),
        ("lon".to_string(), num("-46.6333")),
    ]);
    let r = geo_step(404, Some(&body), "203.0.113.9");
    match r {
        Err(WeatherError::GeoStatus { status, ip }) => {
            assert_eq!(status, 404);
            assert_eq!(ip, "203.0.113.9");
        }
        other => panic!("expected GeoStatus, got {:?}", other),
    }
}

#[test]
fn forecast_non_success_status_reports_context() {
    let body = JsonVal::Obj(vec![
        ("error".to_string(), JsonVal::Bool(true)),
        ("reason".to_string(), JsonVal::Text("Latitude must be in range".to_string())),
    ]);
    let r = forecast_step(400, Some(&body), "https://example.invalid/forecast");
    match r {
        Err(WeatherError::ForecastStatus { status, url, reason }) => {
            assert_eq!(status, 400);
            assert_eq!(url, "https://example.invalid/forecast");
            assert_eq!(reason.as_deref(), Some("Latitude must be in range"));
        }
        other => panic!("expected ForecastStatus, got {:?}", other),
    }
    // A body without the error/reason shape still reports status and URL.
    let r = forecast_step(500, None, "u");
    match r {
        Err(WeatherError::ForecastStatus { status, url, reason }) => {
            assert_eq!(status, 500);
            assert_eq!(url, "u");
            assert_eq!(reason, None);
        }
        other => panic!("expected ForecastStatus, got {:?}", other),
    }
}

#[test]
fn forecast_success_hands_the_payload_through() {
    let payload = weather_payload("25.0", "10.0", "95", "1700000000", "30.0", "20.0");
    let w = forecast_step(200, Some(&payload), "u").unwrap();
    assert_eq!(w.condition, WeatherCondition::Thunderstorm);
    let r = forecast_step(200, None, "u");
    assert!(matches!(r, Err(WeatherError::PayloadShape)));
    let bad = weather_payload("25.0", "10.0", "42", "1700000000", "30.0", "20.0");
    let r = forecast_step(200, Some(&bad), "u");
    assert!(matches!(r, Err(WeatherError::UnknownCode { code: 42 })));
}

#[test]
fn report_step_renders_only_full_success() {
    let payload = weather_payload("25.0", "10.0", "1", "1700000000", "30.0", "20.0");
    let text = report_step(200, Some(&payload), "u").unwrap();
    assert!(text.contains("Temperature: 25.0"));
    assert!(text.contains("Last updated at: 2023-11-14 22:13:20 UTC"));
    let r = report_step(503, Some(&payload), "u");
    assert!(matches!(r, Err(WeatherError::ForecastStatus { status: 503, .. })));
    let r = report_step(200, None, "u");
    assert!(matches!(r, Err(WeatherError::PayloadShape)));
}

#[test]
fn urls_are_built_from_the_inputs() {
    assert_eq!(ip_api_url("203.0.113.9"), "http://ip-api.com/json/203.0.113.9");
    let g = Geo { lat: "-23.55".to_string(), lon: "-46.63".to_string() };
    assert_eq!(
        forecast_url(&g),
        "https://api.open-meteo.com/v1/forecast?latitude=-23.55&longitude=-46.63&daily=apparent_temperature_max,apparent_temperature_min,sunset&current_weather=true&timeformat=unixtime&timezone=America%2FSao_Paulo"
    );
}

#[test]
fn every_failure_has_its_diagnostic_line() {
    assert_eq!(error_text(&WeatherError::IpLookup), "Error getting ip address");
    assert_eq!(
        error_text(&WeatherError::GeoStatus { status: 404, ip: "1.2.3.4".to_string() }),
        "Error Getting Location data from API: ip-api.com. Error Code: 404\nEnsure a valid ip address was used. IP Address used: 1.2.3.4"
    );
    assert_eq!(
        error_text(&WeatherError::GeoShape),
        "Could not read coordinates from the geolocation response"
    );
    assert_eq!(
        error_text(&WeatherError::ForecastStatus {
            status: 400,
            url: "u".to_string(),
            reason: Some("bad".to_string()),
        }),
        "Error Getting Weather from API. Error Code: 400\nURL used: u\nAPI Error Message: bad"
    );
    assert_eq!(
        error_text(&WeatherError::ForecastStatus {
            status: 502,
            url: "u".to_string(),
            reason: None,
        }),
        "Error Getting Weather from API. Error Code: 502\nURL used: u"
    );
    assert_eq!(error_text(&WeatherError::PayloadShape), "Catastrophic Failure");
    assert_eq!(
        error_text(&WeatherError::UnknownCode { code: 42 }),
        "Unexpected Weather Code 42 received from api.\nProgram closing."
    );
    assert_eq!(
        error_text(&WeatherError::TimeOutOfRange),
        "Observation time out of range"
    );
}

#[test]
fn identical_payloads_render_identically() {
    let first = weather_payload("25.0", "10.0", "2", "1700000000", "30.1", "20.0");
    let second = weather_payload("25.0", "10.0", "2", "1700000000", "30.1", "20.0");
    let w1 = from_json(&first).unwrap();
    let w2 = from_json(&second).unwrap();
    assert_eq!(w1, w2);
    assert_eq!(render(&w1), render(&w2));
}

#[test]
fn geo_wrong_coordinate_type_is_fatal() {
    let body = JsonVal::Obj(vec![
        ("lat".to_string(), JsonVal::Text("-23.5505".to_string())),
        ("lon".to_string(), num("-46.6333")),
    ]);
    let r = geo_step(200, Some(&body), "203.0.113.9");
    assert!(matches!(r, Err(WeatherError::GeoShape)));
}

#[test]
fn duplicate_keys_take_the_first_match() {
    let body = JsonVal::Obj(vec![
        ("lat".to_string(), num("1.0")),
        ("lat".to_string(), num("2.0")),
        ("lon".to_string(), num("3.0")),
    ]);
    let g = geo_step(200, Some(&body), "ip").unwrap();
    assert_eq!(g.lat, "1.0");
}

#[test]
fn observation_time_beyond_the_formatter_range_is_fatal() {
    // One past i64::MAX still parses as a u64 but cannot be formatted.
    let payload = weather_payload("25.0", "10.0", "1", "9223372036854775808", "30.0", "20.0");
    let w = from_json(&payload).unwrap();
    assert_eq!(w.observed_at, 9223372036854775808);
    assert_eq!(render(&w), None);
    let r = report_step(200, Some(&payload), "u");
    assert!(matches!(r, Err(WeatherError::TimeOutOfRange)));
}

#[test]
fn observation_time_at_the_formatter_limit_still_renders() {
    // The last whole second chrono can represent renders; one more does not.
    let payload = weather_payload("25.0", "10.0", "1", "8210266876799", "30.0", "20.0");
    let w = from_json(&payload).unwrap();
    let text = render(&w).unwrap();
    assert!(text.contains("Last updated at: +262142-12-31 23:59:59 UTC"));
    assert!(report_step(200, Some(&payload), "u").is_ok());

    let payload = weather_payload("25.0", "10.0", "1", "8210266876800", "30.0", "20.0");
    let w = from_json(&payload).unwrap();
    assert_eq!(render(&w), None);
    let r = report_step(200, Some(&payload), "u");
    assert!(matches!(r, Err(WeatherError::TimeOutOfRange)));
}

#[test]
fn record_assembly_keeps_the_parts() {
    let w = CurrentWeather::new(
        Dec { mant: 250, scale: 1 },
        Dec { mant: 250, scale: 1 },
        Dec { mant: 100, scale: 1 },
        WeatherCondition::Clear,
        1700000000,
    );
    assert_eq!(w.temperature, Dec { mant: 250, scale: 1 });
    assert_eq!(w.observed_at, 1700000000);
}
