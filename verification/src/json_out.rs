//! Rendering the combined report as one JSON text. The exact output character
//! sequence is stated by spec functions, and the executable renderers are
//! proved to produce it.
//!
//! Day labels and temperature texts are emitted verbatim: the labels this
//! library constructs are `"today"` and `"yesterday"`, and a temperature text
//! is a JSON number token, so no escaping is ever needed.

use vstd::prelude::*;
use crate::numbers::{dec_of_int, dec_i64};
use crate::records::{TemperatureRecord, DailyTemperatureReport};

verus! {

/// The JSON object of one record: `{"timestamp":<ts>,"feels_like_celsius":<celsius>}`.
pub open spec fn spec_json_record(ts: int, celsius: Seq<char>) -> Seq<char> {
    "{\"timestamp\":"@ + dec_of_int(ts) + ",\"feels_like_celsius\":"@ + celsius + "}"@
}

/// The comma-joined JSON objects of a record sequence, in order, no brackets.
pub open spec fn spec_json_records(rs: Seq<TemperatureRecord>) -> Seq<char>
    decreases rs.len(),
{
    if rs.len() == 0 {
        Seq::empty()
    } else if rs.len() == 1 {
        spec_json_record(rs.last().timestamp as int, rs.last().feels_like_celsius@)
    } else {
        spec_json_records(rs.drop_last()) + ","@ + spec_json_record(
            rs.last().timestamp as int,
            rs.last().feels_like_celsius@,
        )
    }
}

/// The JSON object of one day: `{"day":"<day>","temperatures":[<records>]}`.
pub open spec fn spec_json_report(day: Seq<char>, rs: Seq<TemperatureRecord>) -> Seq<char> {
    "{\"day\":\""@ + day + "\",\"temperatures\":["@ + spec_json_records(rs) + "]}"@
}

/// The comma-joined JSON objects of a report sequence, in order, no brackets.
pub open spec fn spec_json_reports(reports: Seq<DailyTemperatureReport>) -> Seq<char>
    decreases reports.len(),
{
    if reports.len() == 0 {
        Seq::empty()
    } else if reports.len() == 1 {
        spec_json_report(reports.last().day@, reports.last().temperatures@)
    } else {
        spec_json_reports(reports.drop_last()) + ","@ + spec_json_report(
            reports.last().day@,
            reports.last().temperatures@,
        )
    }
}

/// The whole output document: the report objects as one JSON array.
pub open spec fn spec_render(reports: Seq<DailyTemperatureReport>) -> Seq<char> {
    "["@ + spec_json_reports(reports) + "]"@
}

fn record_json(rec: &TemperatureRecord) -> (r: String)
    ensures
        r@ == spec_json_record(rec.timestamp as int, rec.feels_like_celsius@),
{
    let mut s: String = "{\"timestamp\":".to_owned();
    let ts = dec_i64(rec.timestamp);
    s.append(ts.as_str());
    s.append(",\"feels_like_celsius\":");
    s.append(rec.feels_like_celsius.as_str());
    s.append("}");
    proof {
        assert(s@ =~= spec_json_record(rec.timestamp as int, rec.feels_like_celsius@));
    }
    s
}

fn records_json(rs: &Vec<TemperatureRecord>) -> (r: String)
    ensures
        r@ == spec_json_records(rs@),
{
    let mut s = String::new();
    let mut i: usize = 0;
    while i < rs.len()
        invariant
            i <= rs@.len(),
            s@ == spec_json_records(rs@.take(i as int)),
        decreases rs@.len() - i,
    {
        if i > 0 {
            s.append(",");
        }
        let rj = record_json(&rs[i]);
        s.append(rj.as_str());
        proof {
            let t = rs@.take(i as int + 1);
            assert(t.drop_last() =~= rs@.take(i as int));
            assert(t.last() == rs@[i as int]);
            assert(s@ =~= spec_json_records(t));
        }
        i += 1;
    }
    proof {
        assert(rs@.take(rs@.len() as int) =~= rs@);
    }
    s
}

fn report_json(rep: &DailyTemperatureReport) -> (r: String)
    ensures
        r@ == spec_json_report(rep.day@, rep.temperatures@),
{
    let mut s: String = "{\"day\":\"".to_owned();
    s.append(rep.day.as_str());
    s.append("\",\"temperatures\":[");
    let rj = records_json(&rep.temperatures);
    s.append(rj.as_str());
    s.append("]}");
    proof {
        assert(s@ =~= spec_json_report(rep.day@, rep.temperatures@));
    }
    s
}

/// Renders the report list as the output JSON document.
pub fn render_reports(reports: &Vec<DailyTemperatureReport>) -> (r: String)
    ensures
        r@ == spec_render(reports@),
{
    let mut s: String = "[".to_owned();
    let mut i: usize = 0;
    while i < reports.len()
        invariant
            i <= reports@.len(),
            s@ == "["@ + spec_json_reports(reports@.take(i as int)),
        decreases reports@.len() - i,
    {
        if i > 0 {
            s.append(",");
        }
        let rj = report_json(&reports[i]);
        s.append(rj.as_str());
        proof {
            let t = reports@.take(i as int + 1);
            assert(t.drop_last() =~= reports@.take(i as int));
            assert(t.last() == reports@[i as int]);
            assert(s@ =~= "["@ + spec_json_reports(t));
        }
        i += 1;
    }
    s.append("]");
    proof {
        assert(reports@.take(reports@.len() as int) =~= reports@);
        assert(s@ =~= spec_render(reports@));
    }
    s
}

/// Law: a two-entry report list labeled `"today"` then `"yesterday"` renders
/// as exactly those two labeled entries, in that order, whatever each day's
/// records are.
pub proof fn lemma_render_two_reports(reports: Seq<DailyTemperatureReport>)
    requires
        reports.len() == 2,
        reports[0].day@ == "today"@,
        reports[1].day@ == "yesterday"@,
    ensures
        spec_render(reports) == "["@ + spec_json_report("today"@, reports[0].temperatures@) + ","@
            + spec_json_report("yesterday"@, reports[1].temperatures@) + "]"@,
{
    let front = reports.drop_last();
    assert(front.len() == 1);
    assert(front.last() == reports[0]);
    assert(reports.last() == reports[1]);
    assert(spec_json_reports(front) == spec_json_report(reports[0].day@, reports[0].temperatures@));
    assert(spec_render(reports) =~= "["@ + spec_json_report("today"@, reports[0].temperatures@)
        + ","@ + spec_json_report("yesterday"@, reports[1].temperatures@) + "]"@);
}

} // verus!
