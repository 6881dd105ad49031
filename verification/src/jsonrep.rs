//! A mathematical model of JSON documents, and trusted views onto
//! `serde_json::Value` so the extraction logic can be verified against it.

use vstd::prelude::*;

verus! {

/// Spec-level shape of a JSON document. Object member order is immaterial to
/// the logic, so objects are modelled as maps; numbers the logic can read
/// are those representable as `i64`, all others collapse to `BigOrFloat`.
pub enum JsonRep {
    Null,
    Bool(bool),
    Int(i64),
    BigOrFloat,
    Text(Seq<char>),
    Arr(Seq<JsonRep>),
    Obj(Map<Seq<char>, JsonRep>),
}

#[verifier::external_type_specification]
#[verifier::external_body]
pub struct ExJsonValue(serde_json::Value);

/// The document a `serde_json::Value` holds.
pub uninterp spec fn value_rep(v: serde_json::Value) -> JsonRep;

/// The document that a piece of text parses to, or `None` when the text is
/// not valid JSON.
pub uninterp spec fn json_of(s: Seq<char>) -> Option<JsonRep>;

/// The models of a sequence of parsed values, in order.
pub open spec fn reps_of(s: Seq<serde_json::Value>) -> Seq<JsonRep> {
    s.map_values(|v: serde_json::Value| value_rep(v))
}

/// Relies on serde_json::from_str: the same text always parses to the same
/// document, or fails to parse at all; the error's rendering is carried
/// back as the diagnostic.
#[verifier::external_body]
pub(crate) fn parse_json(s: &str) -> (r: Result<serde_json::Value, String>)
    ensures
        match r {
            Ok(v) => json_of(s@) == Some(value_rep(v)),
            Err(_) => json_of(s@) is None,
        },
{
    serde_json::from_str::<serde_json::Value>(s).map_err(|e| e.to_string())
}

/// Relies on serde_json::Value::as_array: `Some` exactly on arrays,
/// handing back the elements in order.
#[verifier::external_body]
pub(crate) fn value_as_array<'a>(v: &'a serde_json::Value) -> (r: Option<
    &'a Vec<serde_json::Value>,
>)
    ensures
        match r {
            Some(a) => value_rep(*v) == JsonRep::Arr(reps_of(a@)),
            None => !(value_rep(*v) is Arr),
        },
{
    v.as_array()
}

/// Relies on serde_json::Value::get with a string index: member lookup on
/// objects, `None` on absent keys and on every other shape.
#[verifier::external_body]
pub(crate) fn value_get<'a>(v: &'a serde_json::Value, key: &str) -> (r: Option<
    &'a serde_json::Value,
>)
    ensures
        match value_rep(*v) {
            JsonRep::Obj(m) => match r {
                Some(e) => m.contains_key(key@) && value_rep(*e) == m[key@],
                None => !m.contains_key(key@),
            },
            _ => r is None,
        },
{
    v.get(key)
}

/// Relies on serde_json::Value::get with a usize index: element lookup on
/// arrays, `None` out of bounds and on every other shape.
#[verifier::external_body]
pub(crate) fn value_index<'a>(v: &'a serde_json::Value, i: usize) -> (r: Option<
    &'a serde_json::Value,
>)
    ensures
        match value_rep(*v) {
            JsonRep::Arr(s) => match r {
                Some(e) => i < s.len() && value_rep(*e) == s[i as int],
                None => i >= s.len(),
            },
            _ => r is None,
        },
{
    v.get(i)
}

/// Relies on serde_json::Value::as_str: `Some` exactly on strings.
#[verifier::external_body]
pub(crate) fn value_as_str<'a>(v: &'a serde_json::Value) -> (r: Option<&'a str>)
    ensures
        match r {
            Some(s) => value_rep(*v) == JsonRep::Text(s@),
            None => !(value_rep(*v) is Text),
        },
{
    v.as_str()
}

/// Relies on serde_json::Value::as_i64: `Some` exactly on numbers that are
/// integers representable as `i64`.
#[verifier::external_body]
pub(crate) fn value_as_i64(v: &serde_json::Value) -> (r: Option<i64>)
    ensures
        match r {
            Some(i) => value_rep(*v) == JsonRep::Int(i),
            None => !(value_rep(*v) is Int),
        },
{
    v.as_i64()
}

} // verus!
