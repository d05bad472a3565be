//! Frames read from JSON text: serde_json parses the text, and the frame
//! decoder reads the value it gives.
use vstd::prelude::*;
use crate::client::decode::{decode_frame_value, spec_decode_frame_value};
use crate::client::json::{JsonNumber, JsonValue};
use crate::client::protocol::{CodecError, ProtocolFrame};

verus! {

#[verifier::external_type_specification]
#[verifier::external_body]
pub struct ExSerdeJsonValue(serde_json::Value);

/// What serde_json makes of a text: the JSON value it holds, or the text of
/// the parse error.
pub uninterp spec fn json_of_text(text: Seq<char>) -> Result<JsonValue, Seq<char>>;

/// A serde_json value as the library's JSON value: each number by what it
/// reads as a signed and an unsigned 64-bit integer, each object with its
/// members in the order serde_json keeps them.
#[verifier::external_body]
fn from_serde(v: &serde_json::Value) -> (r: JsonValue) {
    match v {
        serde_json::Value::Null => JsonValue::Null,
        serde_json::Value::Bool(b) => JsonValue::Bool(*b),
        serde_json::Value::Number(n) => JsonValue::Number(JsonNumber { as_i64: n.as_i64(), as_u64: n.as_u64() }),
        serde_json::Value::String(s) => JsonValue::String(s.clone()),
        serde_json::Value::Array(items) => JsonValue::Array(items.iter().map(from_serde).collect()),
        serde_json::Value::Object(m) => JsonValue::Object(m.iter().map(|(k, v)| (k.clone(), from_serde(v))).collect()),
    }
}

/// `serde_json::from_str::<serde_json::Value>` (serde_json 1.0): parses a
/// JSON text, or gives the error's text. What it gives is named, not stated.
#[verifier::external_body]
fn parse_json_text(text: &str) -> (r: Result<JsonValue, String>)
    ensures
        match r {
            Ok(v) => json_of_text(text@) == Ok::<JsonValue, Seq<char>>(v),
            Err(e) => json_of_text(text@) == Err::<JsonValue, Seq<char>>(e@),
        },
{
    match serde_json::from_str::<serde_json::Value>(text) {
        Ok(v) => Ok(from_serde(&v)),
        Err(e) => Err(e.to_string()),
    }
}

/// Reads a protocol frame from JSON text: text that is not JSON is refused
/// with serde_json's error; otherwise the frame decoder reads the value.
pub fn decode_frame(payload: &str) -> (r: Result<ProtocolFrame, CodecError>)
    ensures
        match json_of_text(payload@) {
            Err(m) => r matches Err(CodecError::InvalidJson(e)) && e@ == m,
            Ok(v) => spec_decode_frame_value(v, r),
        },
{
    match parse_json_text(payload) {
        Err(e) => Err(CodecError::InvalidJson(e)),
        Ok(v) => decode_frame_value(&v),
    }
}

} // verus!
