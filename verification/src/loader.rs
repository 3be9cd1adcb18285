use vstd::prelude::*;
use crate::json::JsonValue;

verus! {

/// Declares serde_json's value type, so the conversion below may name it.
#[verifier::external_type_specification]
#[verifier::external_body]
pub struct ExValue(serde_json::Value);

/// The JSON tree that a text parses to, if it parses at all: the result of
/// `serde_json::from_str`, carried over value by value.  It is a function
/// of the text alone.
pub uninterp spec fn json_text_value(s: Seq<char>) -> Option<JsonValue>;

/// Carries a `serde_json::Value` over into the library's own tree, one
/// variant to one variant.  Object entries keep serde_json's order; a
/// number's payload is not carried, since no schema field reads one.
#[verifier::external_body]
fn value_to_json(v: serde_json::Value) -> JsonValue {
    match v {
        serde_json::Value::Null => JsonValue::Null,
        serde_json::Value::Bool(b) => JsonValue::Bool(b),
        serde_json::Value::Number(_) => JsonValue::Number,
        serde_json::Value::String(s) => JsonValue::Str(s),
        serde_json::Value::Array(a) => JsonValue::Arr(a.into_iter().map(value_to_json).collect()),
        serde_json::Value::Object(m) => JsonValue::Obj(
            m.into_iter().map(|p| (p.0, value_to_json(p.1))).collect(),
        ),
    }
}

/// Relies on `serde_json::from_str`: parses JSON text, deterministically
/// in the text, and `value_to_json` carries the tree over.
#[verifier::external_body]
pub fn parse_json_text(s: &str) -> (r: Option<JsonValue>)
    ensures
        r == json_text_value(s@),
{
    match serde_json::from_str::<serde_json::Value>(s) {
        Ok(v) => Some(value_to_json(v)),
        Err(_) => None,
    }
}

} // verus!
