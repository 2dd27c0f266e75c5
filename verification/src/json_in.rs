//! Extracting the hourly samples from an upstream response body. Generic JSON
//! parsing is serde_json's work, reached through the trusted items below; the
//! shape of this response — an object whose `hourly` key holds an array of
//! objects, each with an integer `dt` and a numeric `feels_like` — is this
//! library's logic and is checked here.
//!
//! The trusted items speak of a spec-level model of the parsed value tree
//! ([`JsonValue`], fixed for a value by [`json_model`] and for a body text by
//! [`spec_parsed_json`]), and the extraction is proved to return exactly
//! [`spec_hourly_samples`] of the body: one pair per `hourly` element, in
//! source order, `None` on any malformation, with every other field ignored.

use vstd::prelude::*;
use crate::numbers::dec_of_int;
use crate::records::HourlySample;

verus! {

/// A spec-level JSON value: the tree an upstream document denotes. A number is
/// carried as its JSON text (serde_json's canonical rendering of it); an
/// object as the map from key text to value.
pub enum JsonValue {
    Null,
    Bool(bool),
    Num(Seq<char>),
    Str(Seq<char>),
    Arr(Seq<JsonValue>),
    Obj(Map<Seq<char>, JsonValue>),
}

/// Declares serde_json::Value so that it can stand in signatures here; the
/// runtime value tree itself stays opaque, and only the trusted items below
/// look inside it.
#[verifier::external_type_specification]
#[verifier::external_body]
pub struct ExValue(serde_json::Value);

/// The tree a parsed serde_json value stands for.
pub uninterp spec fn json_model(v: serde_json::Value) -> JsonValue;

/// The tree that parsing a text yields — what serde_json::from_str returns,
/// which depends on the text alone — or `None` when the text is not valid JSON.
pub uninterp spec fn spec_parsed_json(body: Seq<char>) -> Option<JsonValue>;

/// Relies on serde_json::from_str: parses a JSON document into its value tree,
/// `None` when the text is not valid JSON (or nested too deeply). The result
/// is a function of the text alone, so it is the tree `spec_parsed_json` fixes
/// for the body.
#[verifier::external_body]
fn parse_json(body: &str) -> (r: Option<serde_json::Value>)
    ensures
        r matches Some(v) ==> spec_parsed_json(body@) == Some(json_model(v)),
        r is None <==> spec_parsed_json(body@) is None,
{
    serde_json::from_str(body).ok()
}

/// Relies on serde_json::Value::get with a string key: the value under the key
/// when `v` is an object that has it, `None` for a missing key and for any
/// value that is not an object.
#[verifier::external_body]
fn json_field<'a>(v: &'a serde_json::Value, key: &str) -> (r: Option<&'a serde_json::Value>)
    ensures
        r matches Some(w) ==> json_model(*v) is Obj && json_model(*v)->Obj_0.contains_key(key@)
            && json_model(*w) == json_model(*v)->Obj_0[key@],
        r is None ==> !(json_model(*v) is Obj && json_model(*v)->Obj_0.contains_key(key@)),
{
    v.get(key)
}

/// Relies on serde_json::Value::as_array: the elements of a JSON array, one
/// model per element in order, `None` for any other value.
#[verifier::external_body]
fn json_as_array(v: &serde_json::Value) -> (r: Option<&Vec<serde_json::Value>>)
    ensures
        r matches Some(arr) ==> json_model(*v) is Arr && arr@.len() == json_model(
            *v,
        )->Arr_0.len() && (forall|i: int|
            0 <= i < arr@.len() ==> json_model(arr@[i]) == json_model(*v)->Arr_0[i]),
        r is None ==> !(json_model(*v) is Arr),
{
    v.as_array()
}

/// Relies on serde_json::Value::as_i64 (through Number::as_i64): `Some`
/// exactly when the value is a JSON integer that fits i64, and then the
/// number's text is that integer's decimal numeral (serde_json keeps an
/// in-range integer token as an integer and prints it canonically). `None` for
/// fractional numbers — whose text always carries a `.` or an exponent —
/// integers outside i64's range, and any value that is not a number.
#[verifier::external_body]
fn json_as_i64(v: &serde_json::Value) -> (r: Option<i64>)
    ensures
        r matches Some(d) ==> json_model(*v) is Num && json_model(*v)->Num_0 == dec_of_int(
            d as int,
        ),
        r is None ==> (forall|d: i64|
            !(json_model(*v) is Num && json_model(*v)->Num_0 == dec_of_int(d as int))),
{
    v.as_i64()
}

/// Relies on serde_json::Number's Display (via to_string): the number's JSON
/// text, a function of the number alone. `None` for any value that is not a
/// number.
#[verifier::external_body]
fn json_number_text(v: &serde_json::Value) -> (r: Option<String>)
    ensures
        r matches Some(t) ==> json_model(*v) is Num && t@ == json_model(*v)->Num_0,
        r is None ==> !(json_model(*v) is Num),
{
    match v {
        serde_json::Value::Number(n) => Some(n.to_string()),
        _ => None,
    }
}

/// The models of a value sequence, element for element.
pub open spec fn models_of(vs: Seq<serde_json::Value>) -> Seq<JsonValue> {
    vs.map_values(|v: serde_json::Value| json_model(v))
}

/// Whether an `hourly` element carries what a sample needs: an integer `dt`
/// that fits i64 and a numeric `feels_like`.
pub open spec fn spec_entry_well_formed(m: JsonValue) -> bool {
    &&& m is Obj
    &&& m->Obj_0.contains_key("dt"@)
    &&& (exists|d: i64| m->Obj_0["dt"@] is Num && m->Obj_0["dt"@]->Num_0 == dec_of_int(d as int))
    &&& m->Obj_0.contains_key("feels_like"@)
    &&& m->Obj_0["feels_like"@] is Num
}

/// The pair an `hourly` element yields: the decimal text of its `dt` and the
/// text of its `feels_like`, or `None` when the element is malformed.
pub open spec fn spec_sample_of(m: JsonValue) -> Option<(Seq<char>, Seq<char>)> {
    if spec_entry_well_formed(m) {
        Some((m->Obj_0["dt"@]->Num_0, m->Obj_0["feels_like"@]->Num_0))
    } else {
        None
    }
}

/// The pairs of an element sequence, in order; `None` as soon as any element
/// is malformed, so a partly bad array never yields a partial list.
pub open spec fn spec_samples_of(ms: Seq<JsonValue>) -> Option<Seq<(Seq<char>, Seq<char>)>>
    decreases ms.len(),
{
    if ms.len() == 0 {
        Some(Seq::empty())
    } else {
        match (spec_samples_of(ms.drop_last()), spec_sample_of(ms.last())) {
            (Some(front), Some(p)) => Some(front.push(p)),
            _ => None,
        }
    }
}

/// What parsing a response body yields: the pairs of its `hourly` array, or
/// `None` when the body is not valid JSON, the root is not an object, the
/// `hourly` key is missing or not an array, or any element is malformed. No
/// other part of the body affects the result.
pub open spec fn spec_hourly_samples(body: Seq<char>) -> Option<Seq<(Seq<char>, Seq<char>)>> {
    match spec_parsed_json(body) {
        Some(root) => {
            if root is Obj && root->Obj_0.contains_key("hourly"@) && root->Obj_0["hourly"@] is Arr {
                spec_samples_of(root->Obj_0["hourly"@]->Arr_0)
            } else {
                None
            }
        },
        None => None,
    }
}

/// The correspondence a sample list keeps with its spec-level pairs: the same
/// length, and position by position the sample's `dt` has the pair's decimal
/// text — which fixes the integer, by `numbers::lemma_dec_of_int_injective` —
/// and its Kelvin text is the pair's.
pub open spec fn samples_match(samples: Seq<HourlySample>, ss: Seq<(Seq<char>, Seq<char>)>) -> bool {
    &&& samples.len() == ss.len()
    &&& forall|i: int|
        0 <= i < ss.len() ==> dec_of_int(#[trigger] samples[i].dt as int) == ss[i].0
            && samples[i].feels_like_kelvin@ == ss[i].1
}

/// One element of the `hourly` array: its `dt` as an integer and its
/// `feels_like` as number text, exactly as `spec_sample_of` fixes them.
fn sample_of_entry(entry: &serde_json::Value) -> (r: Option<HourlySample>)
    ensures
        r matches Some(s) ==> spec_sample_of(json_model(*entry)) matches Some(p) && dec_of_int(
            s.dt as int,
        ) == p.0 && s.feels_like_kelvin@ == p.1,
        r is None <==> spec_sample_of(json_model(*entry)) is None,
{
    let dt_value = match json_field(entry, "dt") {
        Some(v) => v,
        None => {
            return None;
        },
    };
    let dt = match json_as_i64(dt_value) {
        Some(d) => d,
        None => {
            return None;
        },
    };
    let feels_value = match json_field(entry, "feels_like") {
        Some(v) => v,
        None => {
            return None;
        },
    };
    let feels_like_kelvin = match json_number_text(feels_value) {
        Some(t) => t,
        None => {
            return None;
        },
    };
    proof {
        assert(json_model(*dt_value) is Num && json_model(*dt_value)->Num_0 == dec_of_int(
            dt as int,
        ));
        assert(spec_entry_well_formed(json_model(*entry)));
    }
    Some(HourlySample { dt, feels_like_kelvin })
}

proof fn lemma_samples_of_none(ms: Seq<JsonValue>, i: int)
    requires
        0 <= i < ms.len(),
        spec_sample_of(ms[i]) is None,
    ensures
        spec_samples_of(ms) is None,
    decreases ms.len(),
{
    if i == ms.len() - 1 {
        assert(ms.last() == ms[i]);
    } else {
        assert(ms.drop_last()[i] == ms[i]);
        lemma_samples_of_none(ms.drop_last(), i);
    }
}

/// One sample per array element, in order; `None` as soon as any element is
/// malformed.
fn samples_of_array(arr: &Vec<serde_json::Value>) -> (r: Option<Vec<HourlySample>>)
    ensures
        r matches Some(samples) ==> spec_samples_of(models_of(arr@)) matches Some(ss)
            && samples_match(samples@, ss),
        r is None <==> spec_samples_of(models_of(arr@)) is None,
{
    let mut out: Vec<HourlySample> = Vec::new();
    let mut i: usize = 0;
    while i < arr.len()
        invariant
            i <= arr@.len(),
            spec_samples_of(models_of(arr@.take(i as int))) matches Some(ss) && samples_match(
                out@,
                ss,
            ),
        decreases arr@.len() - i,
    {
        match sample_of_entry(&arr[i]) {
            Some(s) => {
                out.push(s);
            },
            None => {
                proof {
                    assert(models_of(arr@)[i as int] == json_model(arr@[i as int]));
                    lemma_samples_of_none(models_of(arr@), i as int);
                }
                return None;
            },
        }
        proof {
            let ms1 = models_of(arr@.take(i as int + 1));
            assert(ms1.drop_last() =~= models_of(arr@.take(i as int)));
            assert(ms1.last() == json_model(arr@[i as int]));
            assert(spec_samples_of(ms1) matches Some(ss1) && samples_match(out@, ss1));
        }
        i += 1;
    }
    proof {
        assert(models_of(arr@.take(arr@.len() as int)) =~= models_of(arr@));
    }
    Some(out)
}

/// Parses an upstream response body: the samples of its `hourly` array, in
/// source order, one per element — exactly what `spec_hourly_samples` fixes
/// for the body, so every other response field is ignored. `None` when the
/// body is not valid JSON, the `hourly` key is missing or not an array, or any
/// element lacks an integer `dt` or a numeric `feels_like`; a `Some` is never
/// a shortened list.
pub fn parse_hourly_samples(body: &str) -> (r: Option<Vec<HourlySample>>)
    ensures
        r matches Some(samples) ==> spec_hourly_samples(body@) matches Some(ss) && samples_match(
            samples@,
            ss,
        ),
        r is None <==> spec_hourly_samples(body@) is None,
{
    let root = match parse_json(body) {
        Some(v) => v,
        None => {
            return None;
        },
    };
    let hourly = match json_field(&root, "hourly") {
        Some(v) => v,
        None => {
            return None;
        },
    };
    let arr = match json_as_array(hourly) {
        Some(a) => a,
        None => {
            return None;
        },
    };
    let result = samples_of_array(arr);
    proof {
        assert(models_of(arr@) =~= json_model(*hourly)->Arr_0);
    }
    result
}

/// A day's decode with the upstream status applied: the body is parsed only
/// when `status` is in the 2xx success range; any other status fails the day,
/// whatever the body holds.
pub fn parse_hourly_response(status: u16, body: &str) -> (r: Option<Vec<HourlySample>>)
    ensures
        200 <= status < 300 ==> (r matches Some(samples) ==> spec_hourly_samples(body@) matches Some(
            ss,
        ) && samples_match(samples@, ss)),
        200 <= status < 300 ==> (r is None <==> spec_hourly_samples(body@) is None),
        !(200 <= status < 300) ==> r is None,
{
    if 200 <= status && status < 300 {
        parse_hourly_samples(body)
    } else {
        None
    }
}

} // verus!
