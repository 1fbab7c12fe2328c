//! Reading fields of JSON argument objects and writing JSON text, as
//! `serde_json` does.

use vstd::prelude::*;

verus! {

/// The string field `key` of the JSON object that `text` parses to (a
/// non-object, an unparsable text, a missing key or a non-string value give
/// `None`).
pub uninterp spec fn json_str_field(text: Seq<char>, key: Seq<char>) -> Option<Seq<char>>;

/// The unsigned integer field `key` of the JSON object that `text` parses
/// to, when it is one that fits in a `u64`.
pub uninterp spec fn json_u64_field(text: Seq<char>, key: Seq<char>) -> Option<u64>;

/// `serde_json::from_str::<Value>(text)` (`Null` on error), then
/// `.get(key).and_then(Value::as_str)`.
#[verifier::external_body]
pub(crate) fn str_field(text: &str, key: &str) -> (r: Option<String>)
    ensures
        match r {
            Some(s) => json_str_field(text@, key@) == Some(s@),
            None => json_str_field(text@, key@) is None,
        },
{
    let v: serde_json::Value = serde_json::from_str(text).unwrap_or_default();
    v.get(key).and_then(|x| x.as_str()).map(|s| s.to_string())
}

/// `serde_json::from_str::<Value>(text)` (`Null` on error), then
/// `.get(key).and_then(Value::as_u64)`.
#[verifier::external_body]
pub(crate) fn u64_field(text: &str, key: &str) -> (r: Option<u64>)
    ensures
        r == json_u64_field(text@, key@),
{
    let v: serde_json::Value = serde_json::from_str(text).unwrap_or_default();
    v.get(key).and_then(|x| x.as_u64())
}

/// A scalar JSON value: a string, a boolean or `null`.
#[derive(Debug, Clone)]
pub enum JsonScalar {
    Str(String),
    Bool(bool),
    Null,
}

/// The mathematical content of a [`JsonScalar`].
pub enum JsonScalarView {
    Str(Seq<char>),
    Bool(bool),
    Null,
}

impl View for JsonScalar {
    type V = JsonScalarView;

    open spec fn view(&self) -> JsonScalarView {
        match self {
            JsonScalar::Str(s) => JsonScalarView::Str(s@),
            JsonScalar::Bool(b) => JsonScalarView::Bool(*b),
            JsonScalar::Null => JsonScalarView::Null,
        }
    }
}

/// The views of object fields.
pub open spec fn fields_view(fields: Seq<(String, JsonScalar)>) -> Seq<(Seq<char>, JsonScalarView)> {
    fields.map_values(|f: (String, JsonScalar)| (f.0@, f.1@))
}

/// No key occurs twice.
pub open spec fn distinct_keys(fields: Seq<(Seq<char>, JsonScalarView)>) -> bool {
    forall|i: int, j: int| 0 <= i < j < fields.len() ==> fields[i].0 != fields[j].0
}

/// The text `serde_json` writes for the object with these fields.
pub uninterp spec fn json_object_text(fields: Seq<(Seq<char>, JsonScalarView)>) -> Seq<char>;

/// `serde_json::Value::Object` built from the fields, each scalar as the
/// `Value` of the same kind, written with `to_string`. Read back with
/// `serde_json`, each key gives its value: a string field as a string, a
/// boolean field as a boolean, and `null` as neither.
#[verifier::external_body]
pub(crate) fn json_object(fields: &Vec<(String, JsonScalar)>) -> (r: String)
    requires
        distinct_keys(fields_view(fields@)),
    ensures
        r@ == json_object_text(fields_view(fields@)),
        forall|i: int|
            0 <= i < fields@.len() ==> json_str_field(r@, #[trigger] fields@[i].0@) == match fields@[i].1 {
                JsonScalar::Str(v) => Some(v@),
                _ => None::<Seq<char>>,
            },
        forall|i: int|
            0 <= i < fields@.len() ==> json_bool_field(r@, #[trigger] fields@[i].0@) == match fields@[i].1 {
                JsonScalar::Bool(b) => Some(b),
                _ => None::<bool>,
            },
{
    let m: serde_json::Map<String, serde_json::Value> = fields.iter().map(|(k, v)| (k.clone(), match v {
        JsonScalar::Str(s) => serde_json::Value::String(s.clone()),
        JsonScalar::Bool(b) => serde_json::Value::Bool(*b),
        JsonScalar::Null => serde_json::Value::Null,
    })).collect();
    serde_json::Value::Object(m).to_string()
}

/// The boolean field `key` of the JSON object that `text` parses to (a
/// non-object, an unparsable text, a missing key or a non-boolean value
/// give `None`).
pub uninterp spec fn json_bool_field(text: Seq<char>, key: Seq<char>) -> Option<bool>;

/// `serde_json::from_str::<Value>(text)` (`Null` on error), then
/// `.get(key).and_then(Value::as_bool)`.
#[verifier::external_body]
pub(crate) fn bool_field(text: &str, key: &str) -> (r: Option<bool>)
    ensures
        r == json_bool_field(text@, key@),
{
    let v: serde_json::Value = serde_json::from_str(text).unwrap_or_default();
    v.get(key).and_then(|x| x.as_bool())
}

/// The JSON string literal of `s`, quoted and escaped as `serde_json`
/// writes it.
pub uninterp spec fn json_string(s: Seq<char>) -> Seq<char>;

/// `serde_json::to_string(s)`: `s` as a JSON string literal.
#[verifier::external_body]
pub(crate) fn json_quote(s: &str) -> (r: String)
    ensures
        r@ == json_string(s@),
{
    serde_json::to_string(s).unwrap_or_default()
}

} // verus!
