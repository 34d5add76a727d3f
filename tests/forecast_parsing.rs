use weather_clock::condition::Condition;
use weather_clock::forecast::{parse_forecast, ForecastResponse};

fn sample() -> ForecastResponse {
    ForecastResponse {
        current_temp_tenths: 214,
        current_code: 2,
        time: (1..=8).map(|d| format!("2024-01-{:02}", d)).collect(),
        weather_code: vec![1, 0, 61, 3, 45, 80, 95, 71],
        temperature_max_tenths: vec![250, 251, 252, 253, 254, 255, 256, 257],
        temperature_min_tenths: vec![150, 151, 152, 153, 154, 155, 156, 157],
    }
}

#[test]
fn sample_response_end_to_end() {
    let w = parse_forecast(&sample()).expect("complete response");
    assert_eq!(w.current_temp_tenths, 214);
    assert_eq!(w.current_condition, Condition::Cloudy);
    assert_eq!(w.forecast.len(), 7);
    assert_eq!(w.forecast[0].day_name, "Tue");
    assert_eq!(w.forecast[0].condition, Condition::Clear);
    assert_eq!(w.forecast[1].condition, Condition::Rain);
}

#[test]
fn forecast_skips_today_and_keeps_order() {
    let w = parse_forecast(&sample()).expect("complete response");
    let names: Vec<&str> = w.forecast.iter().map(|d| d.day_name.as_str()).collect();
    assert_eq!(names, vec!["Tue", "Wed", "Thu", "Fri", "Sat", "Sun", "Mon"]);
    for (i, d) in w.forecast.iter().enumerate() {
        assert_eq!(d.high_tenths, 251 + i as i64);
        assert_eq!(d.low_tenths, 151 + i as i64);
    }
    let conditions: Vec<Condition> = w.forecast.iter().map(|d| d.condition).collect();
    assert_eq!(
        conditions,
        vec![
            Condition::Clear,
            Condition::Rain,
            Condition::Cloudy,
            Condition::Fog,
            Condition::Showers,
            Condition::Storm,
            Condition::Snow
        ]
    );
}

#[test]
fn longer_series_take_seven_days() {
    let mut r = sample();
    r.time.push("2024-01-09".to_string());
    r.weather_code.push(99);
    r.temperature_max_tenths.push(300);
    r.temperature_min_tenths.push(200);
    let w = parse_forecast(&r).expect("complete response");
    assert_eq!(w.forecast.len(), 7);
    assert_eq!(w.forecast[6].day_name, "Mon");
    assert_eq!(w.forecast[6].high_tenths, 257);
}

#[test]
fn bad_date_gets_placeholder_label() {
    let mut r = sample();
    r.time[3] = "garbage".to_string();
    let w = parse_forecast(&r).expect("complete response");
    assert_eq!(w.forecast.len(), 7);
    assert_eq!(w.forecast[2].day_name, "???");
    assert_eq!(w.forecast[2].high_tenths, 253);
    assert_eq!(w.forecast[1].day_name, "Wed");
    assert_eq!(w.forecast[3].day_name, "Fri");
}

#[test]
fn short_series_give_none() {
    let mut r = sample();
    r.time.pop();
    assert!(parse_forecast(&r).is_none());
    let mut r = sample();
    r.weather_code.pop();
    assert!(parse_forecast(&r).is_none());
    let mut r = sample();
    r.temperature_max_tenths.truncate(1);
    assert!(parse_forecast(&r).is_none());
    let mut r = sample();
    r.temperature_min_tenths.clear();
    assert!(parse_forecast(&r).is_none());
}

#[test]
fn unknown_current_code() {
    let mut r = sample();
    r.current_code = 150;
    let w = parse_forecast(&r).expect("complete response");
    assert_eq!(w.current_condition, Condition::Unknown);
}
