//! A small weather-report library: it builds the two request URLs for a fixed
//! location, extracts the hourly `{dt, feels_like}` samples from an upstream
//! JSON response, assembles the two labeled daily reports ("today" first,
//! "yesterday" second), and renders the combined report as one JSON text.
//!
//! Temperature values are carried as JSON number text: the caller performs the
//! floating-point Kelvin-to-Celsius step and hands the resulting number text
//! back, so every structural guarantee here is independent of float arithmetic.

pub mod numbers;
pub mod records;
pub mod urls;
pub mod json_in;
pub mod json_out;
pub mod report;
