//! End-to-end and per-stage tests of the report pipeline: parsing a response
//! body, the Kelvin-to-Celsius step (done here, as by any caller), assembly,
//! and rendering.

use retrieve_weather::json_in::{parse_hourly_response, parse_hourly_samples};
use retrieve_weather::json_out::render_reports;
use retrieve_weather::records::{HourlySample, TemperatureRecord};
use retrieve_weather::report::{assemble_reports, day_temperatures, make_records};

/// The floating-point step a caller performs: Kelvin number text to Celsius
/// number text, by exact f64 subtraction, serialized as serde_json would.
fn celsius_text(kelvin_text: &str) -> String {
    let kelvin: f64 = kelvin_text.parse().unwrap();
    serde_json::to_string(&(kelvin - 273.15)).unwrap()
}

fn records_of_body(body: &str) -> Option<Vec<TemperatureRecord>> {
    let samples = parse_hourly_samples(body)?;
    let mut celsius: Vec<String> = Vec::new();
    for s in &samples {
        celsius.push(celsius_text(&s.feels_like_kelvin));
    }
    Some(make_records(&samples, &celsius))
}

#[test]
fn transform_keeps_length_and_order() {
    let body = r#"{"hourly":[
        {"dt":1700000000,"feels_like":280.0},
        {"dt":1700003600,"feels_like":281.5},
        {"dt":1700007200,"feels_like":280}
    ]}"#;
    let samples = parse_hourly_samples(body).unwrap();
    assert_eq!(samples.len(), 3);
    assert_eq!(samples[0].dt, 1700000000);
    assert_eq!(samples[1].dt, 1700003600);
    assert_eq!(samples[2].dt, 1700007200);
    assert_eq!(samples[0].feels_like_kelvin, "280.0");
    assert_eq!(samples[1].feels_like_kelvin, "281.5");
    assert_eq!(samples[2].feels_like_kelvin, "280");

    let records = records_of_body(body).unwrap();
    assert_eq!(records.len(), 3);
    assert_eq!(records[0].timestamp, 1700000000);
    assert_eq!(records[1].timestamp, 1700003600);
    assert_eq!(records[2].timestamp, 1700007200);
    assert_eq!(records[0].feels_like_celsius, "6.850000000000023");
    assert_eq!(records[1].feels_like_celsius, "8.350000000000023");
    assert_eq!(records[2].feels_like_celsius, "6.850000000000023");
}

#[test]
fn kelvin_to_celsius_is_exact_f64_subtraction() {
    assert_eq!(280.0_f64 - 273.15_f64, 6.850000000000023_f64);
    assert_eq!(celsius_text("280.0"), "6.850000000000023");
    assert_eq!(celsius_text("273.15"), "0.0");
}

#[test]
fn parse_ignores_other_response_fields() {
    let body = r#"{"lat":51.5074,"timezone":"Europe/London",
        "hourly":[{"humidity":81,"feels_like":280.0,"dt":1700000000,"weather":[{"id":804}]}],
        "minutely":[]}"#;
    let samples = parse_hourly_samples(body).unwrap();
    assert_eq!(samples.len(), 1);
    assert_eq!(samples[0].dt, 1700000000);
    assert_eq!(samples[0].feels_like_kelvin, "280.0");
}

#[test]
fn parse_accepts_empty_hourly() {
    let samples = parse_hourly_samples(r#"{"hourly":[]}"#).unwrap();
    assert!(samples.is_empty());
}

#[test]
fn malformed_bodies_parse_to_none() {
    // not JSON at all
    assert!(parse_hourly_samples("{\"hourly\":[").is_none());
    // missing `hourly`
    assert!(parse_hourly_samples(r#"{"daily":[]}"#).is_none());
    // `hourly` is not an array
    assert!(parse_hourly_samples(r#"{"hourly":{"dt":1}}"#).is_none());
    // an element missing `dt`
    assert!(parse_hourly_samples(r#"{"hourly":[{"feels_like":280.0}]}"#).is_none());
    // an element missing `feels_like`
    assert!(parse_hourly_samples(r#"{"hourly":[{"dt":1700000000}]}"#).is_none());
    // non-integer `dt`
    assert!(parse_hourly_samples(r#"{"hourly":[{"dt":2.5,"feels_like":280.0}]}"#).is_none());
    // non-numeric `feels_like`
    assert!(parse_hourly_samples(r#"{"hourly":[{"dt":1,"feels_like":"cold"}]}"#).is_none());
    // one good element does not rescue a bad one
    assert!(parse_hourly_samples(
        r#"{"hourly":[{"dt":1,"feels_like":280.0},{"dt":"x","feels_like":280.0}]}"#
    )
    .is_none());
}

#[test]
fn non_success_status_fails_the_day() {
    let good_body = r#"{"hourly":[{"dt":1700000000,"feels_like":280.0}]}"#;
    assert!(parse_hourly_response(404, good_body).is_none());
    assert!(parse_hourly_response(500, good_body).is_none());
    assert!(parse_hourly_response(199, good_body).is_none());
    assert!(parse_hourly_response(300, good_body).is_none());
    assert_eq!(parse_hourly_response(200, good_body).unwrap().len(), 1);
    assert_eq!(parse_hourly_response(299, good_body).unwrap().len(), 1);
    // a success status still fails on a malformed body
    assert!(parse_hourly_response(200, r#"{"daily":[]}"#).is_none());
}

#[test]
fn failure_is_absorbed_and_report_still_has_two_entries() {
    let today = day_temperatures(records_of_body(r#"{"hourly":["#));
    assert!(today.is_empty());
    let yesterday = day_temperatures(records_of_body(r#"{"hourly":[{"dt":1,"feels_like":280.0}]}"#));
    assert_eq!(yesterday.len(), 1);
    let reports = assemble_reports(today, yesterday);
    assert_eq!(reports.len(), 2);
    assert_eq!(reports[0].day, "today");
    assert!(reports[0].temperatures.is_empty());
    assert_eq!(reports[1].day, "yesterday");
    assert_eq!(reports[1].temperatures.len(), 1);
    let out = render_reports(&reports);
    assert_eq!(
        out,
        "[{\"day\":\"today\",\"temperatures\":[]},{\"day\":\"yesterday\",\"temperatures\":[{\"timestamp\":1,\"feels_like_celsius\":6.850000000000023}]}]"
    );
}

#[test]
fn end_to_end_stubbed_bodies() {
    // the stubbed forecast and historical bodies of a run with key "test123"
    let forecast_body = r#"{"hourly":[{"dt":1700000000,"feels_like":280.0}]}"#;
    let historical_body = r#"{"hourly":[]}"#;
    let today = day_temperatures(records_of_body(forecast_body));
    let yesterday = day_temperatures(records_of_body(historical_body));
    let reports = assemble_reports(today, yesterday);
    let out = render_reports(&reports);
    assert_eq!(
        out,
        "[{\"day\":\"today\",\"temperatures\":[{\"timestamp\":1700000000,\"feels_like_celsius\":6.850000000000023}]},{\"day\":\"yesterday\",\"temperatures\":[]}]"
    );
}

#[test]
fn report_always_labels_today_then_yesterday() {
    let reports = assemble_reports(Vec::new(), Vec::new());
    let out = render_reports(&reports);
    assert_eq!(
        out,
        "[{\"day\":\"today\",\"temperatures\":[]},{\"day\":\"yesterday\",\"temperatures\":[]}]"
    );
}

#[test]
fn renderer_handles_negative_timestamps() {
    let rec = TemperatureRecord { timestamp: -5, feels_like_celsius: "0.0".to_string() };
    let reports = assemble_reports(vec![rec], Vec::new());
    let out = render_reports(&reports);
    assert_eq!(
        out,
        "[{\"day\":\"today\",\"temperatures\":[{\"timestamp\":-5,\"feels_like_celsius\":0.0}]},{\"day\":\"yesterday\",\"temperatures\":[]}]"
    );
}

#[test]
fn make_records_pairs_by_position() {
    let samples = vec![
        HourlySample { dt: 10, feels_like_kelvin: "300".to_string() },
        HourlySample { dt: 20, feels_like_kelvin: "301".to_string() },
    ];
    let celsius = vec!["26.850000000000023".to_string(), "27.850000000000023".to_string()];
    let records = make_records(&samples, &celsius);
    assert_eq!(records.len(), 2);
    assert_eq!(records[0].timestamp, 10);
    assert_eq!(records[0].feels_like_celsius, "26.850000000000023");
    assert_eq!(records[1].timestamp, 20);
    assert_eq!(records[1].feels_like_celsius, "27.850000000000023");
}
