//! From parsed samples to the two labeled daily reports: the record transform,
//! the failure-absorbing policy (a failed day becomes an empty record list),
//! and the fixed two-entry assembly, "today" first.

use vstd::prelude::*;
use crate::records::{HourlySample, TemperatureRecord, DailyTemperatureReport};

verus! {

/// Pairs each sample's timestamp with its Celsius text: the result has one
/// record per sample, in order, with `timestamp` taken from the sample's `dt`
/// and `feels_like_celsius` taken from `celsius` at the same position.
pub fn make_records(samples: &Vec<HourlySample>, celsius: &Vec<String>) -> (r: Vec<
    TemperatureRecord,
>)
    requires
        samples@.len() == celsius@.len(),
    ensures
        r@.len() == samples@.len(),
        forall|i: int| 0 <= i < r@.len() ==> r@[i].timestamp == samples@[i].dt,
        forall|i: int| 0 <= i < r@.len() ==> r@[i].feels_like_celsius@ == celsius@[i]@,
{
    let mut out: Vec<TemperatureRecord> = Vec::new();
    let mut i: usize = 0;
    while i < samples.len()
        invariant
            samples@.len() == celsius@.len(),
            i <= samples@.len(),
            out@.len() == i as int,
            forall|j: int| 0 <= j < i ==> out@[j].timestamp == samples@[j].dt,
            forall|j: int| 0 <= j < i ==> out@[j].feels_like_celsius@ == celsius@[j]@,
        decreases samples@.len() - i,
    {
        let rec = TemperatureRecord {
            timestamp: samples[i].dt,
            feels_like_celsius: celsius[i].clone(),
        };
        out.push(rec);
        i += 1;
    }
    out
}

/// The failure-absorbing policy of a day's fetch: a parsed record list is kept
/// as it is, and any failure (`None`) becomes an empty list, never an error.
pub fn day_temperatures(parsed: Option<Vec<TemperatureRecord>>) -> (r: Vec<TemperatureRecord>)
    ensures
        match parsed {
            Some(v) => r@ == v@,
            None => r@.len() == 0,
        },
{
    match parsed {
        Some(v) => v,
        None => Vec::new(),
    }
}

/// Assembles the combined report: always exactly two entries, `"today"` with
/// `today`'s records first, then `"yesterday"` with `yesterday`'s, whatever
/// either day's fetch produced.
pub fn assemble_reports(today: Vec<TemperatureRecord>, yesterday: Vec<TemperatureRecord>) -> (r:
    Vec<DailyTemperatureReport>)
    ensures
        r@.len() == 2,
        r@[0].day@ == "today"@,
        r@[0].temperatures@ == today@,
        r@[1].day@ == "yesterday"@,
        r@[1].temperatures@ == yesterday@,
{
    let mut out: Vec<DailyTemperatureReport> = Vec::new();
    out.push(DailyTemperatureReport { day: "today".to_owned(), temperatures: today });
    out.push(DailyTemperatureReport { day: "yesterday".to_owned(), temperatures: yesterday });
    out
}

} // verus!
