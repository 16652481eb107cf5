use morning_weather::client::{
    endpoint_url, historical_request, onecall_request, resolve_body, ClientError, WeatherError,
};
use morning_weather::diff::TempDifference;
use morning_weather::model::{Historical, HistoricalHourly, Hourly, OneCall};
use morning_weather::report::{morning_summary, report};
use morning_weather::stats::Stats;
use morning_weather::text::int_to_text;
use morning_weather::time::{day_start_of, yesterday_start, UnixUTC, DAY, TEXT_RANGE};

#[test]
fn test_tempdiff() {
    assert_eq!(TempDifference::from(5000, 6900), TempDifference::MuchWarmer);
    assert_eq!(TempDifference::from(1300, 1900), TempDifference::Warmer);
    assert_eq!(TempDifference::from(5000, 5100), TempDifference::Same);
    assert_eq!(TempDifference::from(5000, 4900), TempDifference::Same);
    assert_eq!(TempDifference::from(1900, 1300), TempDifference::Colder);
    assert_eq!(TempDifference::from(1900, 500), TempDifference::MuchColder);
}

#[test]
fn tempdiff_boundaries_fall_into_milder_bucket() {
    assert_eq!(TempDifference::from(0, 1000), TempDifference::Warmer);
    assert_eq!(TempDifference::from(0, 500), TempDifference::Same);
    assert_eq!(TempDifference::from(1000, 0), TempDifference::Colder);
    assert_eq!(TempDifference::from(500, 0), TempDifference::Same);
    assert_eq!(TempDifference::from(0, 1001), TempDifference::MuchWarmer);
    assert_eq!(TempDifference::from(0, 501), TempDifference::Warmer);
    assert_eq!(TempDifference::from(0, -1001), TempDifference::MuchColder);
    assert_eq!(TempDifference::from(0, -501), TempDifference::Colder);
}

#[test]
fn tempdiff_extreme_inputs_do_not_overflow() {
    assert_eq!(TempDifference::from(i64::MIN, i64::MAX), TempDifference::MuchWarmer);
    assert_eq!(TempDifference::from(i64::MAX, i64::MIN), TempDifference::MuchColder);
}

#[test]
fn tempdiff_labels() {
    assert_eq!(TempDifference::MuchColder.label(), "much colder");
    assert_eq!(TempDifference::Colder.label(), "colder");
    assert_eq!(TempDifference::Same.label(), "about the same");
    assert_eq!(TempDifference::Warmer.label(), "warmer");
    assert_eq!(TempDifference::MuchWarmer.label(), "much warmer");
}

#[test]
fn stats_of_single_reading() {
    let st = Stats::from(&[4237]).unwrap();
    assert_eq!(st, Stats { min: 4237, max: 4237, avg: 4237, count: 1 });
}

#[test]
fn stats_of_no_readings_is_none() {
    assert_eq!(Stats::from(&[]), None);
}

#[test]
fn stats_of_several_readings() {
    let st = Stats::from(&[5500, 8000, 7200]).unwrap();
    assert_eq!(st, Stats { min: 5500, max: 8000, avg: 6900, count: 3 });
    assert!(st.min <= st.avg && st.avg <= st.max);
}

#[test]
fn stats_tracks_max_from_first_reading() {
    let st = Stats::from(&[300, 200, 100]).unwrap();
    assert_eq!(st.max, 300);
    assert_eq!(st.min, 100);
    assert_eq!(st.avg, 200);
}

#[test]
fn stats_mean_rounds_to_nearest_hundredth() {
    assert_eq!(Stats::from(&[0, 0, 1]).unwrap().avg, 0);
    assert_eq!(Stats::from(&[0, 1, 1]).unwrap().avg, 1);
    assert_eq!(Stats::from(&[0, 1]).unwrap().avg, 1);
    assert_eq!(Stats::from(&[-1, 0]).unwrap().avg, 0);
    assert_eq!(Stats::from(&[-2, -1]).unwrap().avg, -1);
}

#[test]
fn stats_extreme_readings() {
    let st = Stats::from(&[i64::MAX, i64::MIN, i64::MAX]).unwrap();
    assert_eq!(st.min, i64::MIN);
    assert_eq!(st.max, i64::MAX);
    assert!(st.min <= st.avg && st.avg <= st.max);
    let st = Stats::from(&[i64::MAX, i64::MAX]).unwrap();
    assert_eq!(st.avg, i64::MAX);
}

#[test]
fn stats_default_is_empty_accumulator() {
    let st = Stats::default();
    assert_eq!(st, Stats { min: i64::MAX, max: i64::MIN, avg: 0, count: 0 });
}

#[test]
fn timestamp_round_trips() {
    for t in [0i64, 1, -1, 1_600_000_000, i64::MAX, i64::MIN] {
        let u = UnixUTC::from(t);
        let back: i64 = u.into();
        assert_eq!(back, t);
        assert_eq!(u.timestamp(), t);
    }
}

#[test]
fn timestamp_text_uses_chrono() {
    assert_eq!(UnixUTC::from(0).to_text(), Some("1970-01-01T00:00:00Z".to_string()));
    assert_eq!(
        UnixUTC::from(1_614_834_367).to_text(),
        Some("2021-03-04T05:06:07Z".to_string())
    );
    assert_eq!(UnixUTC::from(i64::MAX).to_text(), None);
}

#[test]
fn yesterday_start_is_previous_midnight() {
    assert_eq!(yesterday_start(1_614_834_367), Some(1_614_729_600));
    assert_eq!(yesterday_start(1_614_816_000), Some(1_614_729_600));
    assert_eq!(yesterday_start(0), Some(-DAY));
    assert_eq!(yesterday_start(-1), Some(-2 * DAY));
    assert_eq!(yesterday_start(i64::MIN), None);
}

#[test]
fn day_start_is_midnight_utc() {
    assert_eq!(day_start_of(1_614_834_367), Some(1_614_816_000));
    assert_eq!(day_start_of(1_614_816_000), Some(1_614_816_000));
    assert_eq!(day_start_of(-1), Some(-DAY));
    assert_eq!(day_start_of(i64::MAX), Some(i64::MAX - i64::MAX % DAY));
    assert_eq!(day_start_of(i64::MIN), None);
}

#[test]
fn decoding_prefers_data() {
    let r: Result<u32, WeatherError> = resolve_body(
        Ok(7),
        Some(ClientError { code: 401, message: "Invalid API key".to_string() }),
        "{}".to_string(),
    );
    assert!(matches!(r, Ok(7)));
}

#[test]
fn decoding_reports_provider_error() {
    let body = r#"{"cod": 401, "message": "Invalid API key"}"#.to_string();
    let r: Result<u32, WeatherError> = resolve_body(
        Err("missing field `hourly`".to_string()),
        Some(ClientError { code: 401, message: "Invalid API key".to_string() }),
        body,
    );
    match r {
        Err(WeatherError::Client(ce)) => {
            assert_eq!(ce.code, 401);
            assert_eq!(ce.message, "Invalid API key");
        }
        other => panic!("unexpected {:?}", other),
    }
}

#[test]
fn decoding_keeps_first_failure_and_body() {
    let r: Result<u32, WeatherError> =
        resolve_body(Err("expected value".to_string()), None, "oops".to_string());
    match r {
        Err(WeatherError::Deserialize(e, body)) => {
            assert_eq!(e, "expected value");
            assert_eq!(body, "oops");
        }
        other => panic!("unexpected {:?}", other),
    }
}

#[test]
fn requests_name_endpoint_and_parameters() {
    assert_eq!(endpoint_url("onecall"), "https://api.openweathermap.org/data/2.5/onecall");
    let r = onecall_request();
    assert_eq!(r.url, "https://api.openweathermap.org/data/2.5/onecall");
    assert_eq!(
        r.params,
        vec![
            ("exclude".to_string(), "currently,minutely".to_string()),
            ("units".to_string(), "imperial".to_string())
        ]
    );
    let r = historical_request(1_614_729_600).unwrap();
    assert_eq!(r.url, "https://api.openweathermap.org/data/2.5/onecall/timemachine");
    assert_eq!(
        r.params,
        vec![
            ("units".to_string(), "imperial".to_string()),
            ("dt".to_string(), "1614729600".to_string())
        ]
    );
    assert_eq!(historical_request(-86400).unwrap().params[1].1, "-86400");
    let r = historical_request(1_614_834_367).unwrap();
    assert_eq!(r.params[1].1, "1614816000");
    assert_eq!(historical_request(-1).unwrap().params[1].1, "-86400");
    assert!(historical_request(i64::MIN).is_none());
}

#[test]
fn integers_in_decimal() {
    assert_eq!(int_to_text(0), "0");
    assert_eq!(int_to_text(7), "7");
    assert_eq!(int_to_text(1200), "1200");
    assert_eq!(int_to_text(-45), "-45");
    assert_eq!(int_to_text(i64::MIN), "-9223372036854775808");
    assert_eq!(int_to_text(i64::MAX), "9223372036854775807");
}

#[test]
fn morning_summary_much_warmer_and_pleasant() {
    let today = [5500, 8000, 7200];
    let yesterday = [5000];
    assert_eq!(
        morning_summary(&yesterday, &today).unwrap(),
        "Good morning! Today will be about 69.00°F (55 - 80°F); that's much warmer than yesterday :)"
    );
}

#[test]
fn morning_summary_needs_both_days() {
    assert_eq!(morning_summary(&[], &[5000]), None);
    assert_eq!(morning_summary(&[5000], &[]), None);
}

#[test]
fn report_same_uses_as_and_period() {
    let st = Stats { min: 4050, max: 5525, avg: 4833, count: 3 };
    assert_eq!(
        report(&st, TempDifference::Same),
        "Good morning! Today will be about 48.33°F (40.5 - 55.25°F); that's about the same as yesterday."
    );
}

#[test]
fn report_negative_and_smile_bounds() {
    let st = Stats { min: -1210, max: -5, avg: -50, count: 2 };
    assert_eq!(
        report(&st, TempDifference::MuchColder),
        "Good morning! Today will be about -0.50°F (-12.1 - -0.05°F); that's much colder than yesterday."
    );
    let st = Stats { min: 6000, max: 6000, avg: 6000, count: 1 };
    assert!(report(&st, TempDifference::Colder).ends_with("colder than yesterday :)"));
    let st = Stats { min: 8001, max: 8001, avg: 8001, count: 1 };
    assert!(report(&st, TempDifference::Warmer).ends_with("warmer than yesterday."));
    let st = Stats { min: 5999, max: 5999, avg: 5999, count: 1 };
    assert!(report(&st, TempDifference::Warmer).ends_with("yesterday."));
}

fn hour(feels_like: i64) -> Hourly {
    Hourly {
        dt: UnixUTC::from(0),
        temp: feels_like,
        feels_like,
        humidity: 5000,
        clouds: 0,
        rain: None,
        snow: None,
    }
}

#[test]
fn today_takes_first_twenty_four_hours() {
    let hourly: Vec<Hourly> = (0..48).map(|i| hour(i * 100)).collect();
    let oc = OneCall { hourly, daily: vec![] };
    let v = oc.today_feels_like();
    assert_eq!(v.len(), 24);
    assert_eq!(v[0], 0);
    assert_eq!(v[23], 2300);
    let oc = OneCall { hourly: vec![hour(1), hour(2)], daily: vec![] };
    assert_eq!(oc.today_feels_like(), vec![1, 2]);
}

#[test]
fn historical_takes_every_hour() {
    let h = Historical {
        hourly: (0..3)
            .map(|i| HistoricalHourly {
                dt: UnixUTC::from(i * 3600),
                temp: 0,
                feels_like: i * 10,
                humidity: 0,
                clouds: 0,
                wind_speed: 0,
                wind_gust: None,
                rain: None,
                snow: None,
            })
            .collect(),
    };
    assert_eq!(h.feels_like(), vec![0, 10, 20]);
}

#[test]
fn timestamp_text_within_range() {
    assert!(UnixUTC::from(TEXT_RANGE).to_text().is_some());
    assert!(UnixUTC::from(-TEXT_RANGE).to_text().is_some());
    assert_eq!(UnixUTC::from(-1).to_text(), Some("1969-12-31T23:59:59Z".to_string()));
}
