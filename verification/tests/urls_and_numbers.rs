//! Tests of the request URLs, the day-before timestamp, and the decimal
//! numeral renderers.

use retrieve_weather::numbers::{dec_i64, dec_u64};
use retrieve_weather::urls::{forecast_url, historical_url, historical_url_for, yesterday_timestamp};

#[test]
fn forecast_url_is_exact() {
    assert_eq!(
        forecast_url("test123"),
        "https://api.openweathermap.org/data/2.5/onecall?lat=51.5074&lon=0.1278&exclude=minutely,daily,alerts&appid=test123"
    );
}

#[test]
fn historical_url_is_exact() {
    assert_eq!(
        historical_url("test123", 1699913600),
        "https://api.openweathermap.org/data/2.5/onecall/timemachine?lat=51.5074&lon=0.1278&dt=1699913600&appid=test123"
    );
}

#[test]
fn historical_url_encodes_day_before_now() {
    let now: u64 = 1700000000;
    assert_eq!(
        historical_url_for("test123", now),
        "https://api.openweathermap.org/data/2.5/onecall/timemachine?lat=51.5074&lon=0.1278&dt=1699913600&appid=test123"
    );
}

#[test]
fn yesterday_timestamp_subtracts_one_day() {
    assert_eq!(yesterday_timestamp(1700000000), Some(1699913600));
    assert_eq!(yesterday_timestamp(86400), Some(0));
    assert_eq!(yesterday_timestamp(86399), None);
}

#[test]
fn decimal_numerals_are_exact() {
    assert_eq!(dec_u64(0), "0");
    assert_eq!(dec_u64(7), "7");
    assert_eq!(dec_u64(10), "10");
    assert_eq!(dec_u64(1700000000), "1700000000");
    assert_eq!(dec_u64(u64::MAX), "18446744073709551615");
    assert_eq!(dec_i64(0), "0");
    assert_eq!(dec_i64(-1), "-1");
    assert_eq!(dec_i64(1234567890), "1234567890");
    assert_eq!(dec_i64(i64::MIN), "-9223372036854775808");
    assert_eq!(dec_i64(i64::MAX), "9223372036854775807");
}
