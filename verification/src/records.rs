//! The data model: an hourly sample as extracted from the upstream response,
//! a temperature record of the emitted report, and the labeled daily report.
//!
//! A temperature is carried as its JSON number text. The upstream value is
//! Kelvin; the caller turns that text into the Celsius text of a record (the
//! one floating-point step, which stays outside this library).

use vstd::prelude::*;

verus! {

/// One element of the upstream `hourly` array: the Unix timestamp `dt` and the
/// `feels_like` value in Kelvin, kept as the number's JSON text.
#[derive(Clone, Debug)]
pub struct HourlySample {
    pub dt: i64,
    pub feels_like_kelvin: String,
}

/// One entry of an emitted report: the sample's timestamp and the "feels like"
/// temperature in Celsius, kept as the number's JSON text.
#[derive(Clone, Debug)]
pub struct TemperatureRecord {
    pub timestamp: i64,
    pub feels_like_celsius: String,
}

/// One day's report: its label (`"today"` or `"yesterday"`) and its records in
/// upstream order. `temperatures` is empty when that day's fetch failed.
#[derive(Clone, Debug)]
pub struct DailyTemperatureReport {
    pub day: String,
    pub temperatures: Vec<TemperatureRecord>,
}

} // verus!
