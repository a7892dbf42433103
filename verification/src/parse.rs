//! The parse of the options text that the JavaScript side passes when it
//! creates a server.
use vstd::prelude::*;
use crate::json::{Json, JsonNumber};

verus! {

/// JSON values as `serde_json` parses them.
#[verifier::external_type_specification]
#[verifier::external_body]
pub struct ExValue(serde_json::Value);

/// Turns a `serde_json` value into the library's JSON value, variant for
/// variant: a number keeps what `Number::as_u64` and its `Display` text
/// give, an object keeps its members in `serde_json`'s order. Nothing is
/// stated of it here; `parse_options` states what it is used for.
#[verifier::external_body]
fn json_of_value(v: &serde_json::Value) -> Json {
    match v {
        serde_json::Value::Null => Json::Null,
        serde_json::Value::Bool(b) => Json::Bool(*b),
        serde_json::Value::Number(n) => Json::Number(
            JsonNumber { as_u64: n.as_u64(), text: n.to_string() },
        ),
        serde_json::Value::String(s) => Json::Str(s.clone()),
        serde_json::Value::Array(a) => Json::Array(a.iter().map(json_of_value).collect()),
        serde_json::Value::Object(m) => Json::Object(
            m.iter().map(|(k, x)| (k.clone(), json_of_value(x))).collect(),
        ),
    }
}

/// What `serde_json::from_str` makes of a text, as the library's JSON
/// value; `None` for a text that is not JSON.
pub uninterp spec fn parsed_options(text: Seq<char>) -> Option<Json>;

/// Calls `serde_json::from_str::<serde_json::Value>` on the text and turns
/// the value into the library's JSON value. The result depends on the text
/// alone; a number that fits in a `u64` keeps its decimal text (serde_json
/// writes such a number with `itoa`), so the value is well formed. What the
/// parse accepts is not stated.
#[verifier::external_body]
pub fn parse_options(text: &str) -> (r: Option<Json>)
    ensures
        r == parsed_options(text@),
        r matches Some(j) ==> j.wf(),
{
    match serde_json::from_str::<serde_json::Value>(text) {
        Ok(v) => Some(json_of_value(&v)),
        Err(_) => None,
    }
}

} // verus!
