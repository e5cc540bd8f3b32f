//! A plain model of JSON values, and the calls into serde_json that read
//! and write JSON text.
use vstd::prelude::*;

verus! {

#[verifier::external_type_specification]
#[verifier::external_body]
pub struct ExJsonValue(serde_json::Value);

#[verifier::external_type_specification]
#[verifier::external_body]
pub struct ExJsonNumber(serde_json::Number);

#[verifier::external_type_specification]
#[verifier::external_body]
pub struct ExJsonError(serde_json::Error);

/// A JSON value. Object members keep the order in which the text gave them;
/// a number keeps serde_json's own representation.
#[derive(Debug)]
pub enum Json {
    Null,
    Bool(bool),
    Number(serde_json::Number),
    Str(String),
    Array(Vec<Json>),
    Object(Vec<(String, Json)>),
}

/// The text of a JSON string; `None` for any other value.
pub open spec fn str_of(j: Json) -> Option<Seq<char>> {
    match j {
        Json::Str(s) => Some(s@),
        _ => None,
    }
}

/// What serde_json makes of a JSON text: `None` where the text is no JSON.
pub uninterp spec fn json_of_text(s: Seq<char>) -> Option<Json>;

/// What serde_json makes of a JSON document given as bytes: `None` where the
/// bytes are no JSON.
pub uninterp spec fn json_of_bytes(b: Seq<u8>) -> Option<Json>;

/// The compact JSON text that serde_json writes for a value.
pub uninterp spec fn json_text_of(j: Json) -> Seq<char>;

/// Turns serde_json's tree into a `Json`, node for node.
#[verifier::external_body]
fn from_serde(v: serde_json::Value) -> Json {
    match v {
        serde_json::Value::Null => Json::Null,
        serde_json::Value::Bool(b) => Json::Bool(b),
        serde_json::Value::Number(n) => Json::Number(n),
        serde_json::Value::String(s) => Json::Str(s),
        serde_json::Value::Array(a) => Json::Array(a.into_iter().map(from_serde).collect()),
        serde_json::Value::Object(m) => Json::Object(m.into_iter().map(|(k, x)| (k, from_serde(x))).collect()),
    }
}

/// Turns a `Json` into serde_json's tree, node for node.
#[verifier::external_body]
fn to_serde(j: &Json) -> serde_json::Value {
    match j {
        Json::Null => serde_json::Value::Null,
        Json::Bool(b) => serde_json::Value::Bool(*b),
        Json::Number(n) => serde_json::Value::Number(n.clone()),
        Json::Str(s) => serde_json::Value::String(s.clone()),
        Json::Array(a) => serde_json::Value::Array(a.iter().map(to_serde).collect()),
        Json::Object(m) => serde_json::Value::Object(m.iter().map(|(k, x)| (k.clone(), to_serde(x))).collect()),
    }
}

/// Relies on serde_json::from_str into a `serde_json::Value`: it fails
/// exactly on text that is no JSON, and its result depends on the text alone.
#[verifier::external_body]
pub fn parse_json(s: &str) -> (r: Result<Json, serde_json::Error>)
    ensures
        r is Ok <==> json_of_text(s@) is Some,
        r is Ok ==> r->Ok_0 == json_of_text(s@)->Some_0,
{
    serde_json::from_str::<serde_json::Value>(s).map(from_serde)
}

/// Relies on serde_json::from_slice into a `serde_json::Value`: it fails
/// exactly on bytes that are no JSON, and its result depends on them alone.
#[verifier::external_body]
pub fn parse_json_bytes(b: &[u8]) -> (r: Result<Json, serde_json::Error>)
    ensures
        r is Ok <==> json_of_bytes(b@) is Some,
        r is Ok ==> r->Ok_0 == json_of_bytes(b@)->Some_0,
{
    serde_json::from_slice::<serde_json::Value>(b).map(from_serde)
}

/// Relies on serde_json::from_value into a `String`: it succeeds exactly on
/// a JSON string, and gives that string.
#[verifier::external_body]
pub fn decode_string(j: &Json) -> (r: Result<String, serde_json::Error>)
    ensures
        r is Ok <==> str_of(*j) is Some,
        r is Ok ==> r->Ok_0@ == str_of(*j)->Some_0,
{
    serde_json::from_value::<String>(to_serde(j))
}

/// Relies on `Display` of `serde_json::Value` (its `to_string`): the compact
/// JSON text of the value, a function of the value alone.
#[verifier::external_body]
pub fn json_text(j: &Json) -> (r: String)
    ensures
        r@ == json_text_of(*j),
{
    to_serde(j).to_string()
}

} // verus!
