//! The JSON capability: values are parsed and serialised by `serde_json`.

use serde_json::Error as JsonError;
use serde_json::Value;
use vstd::prelude::*;

verus! {

/// A JSON value, carried through the library without looking inside it.
#[verifier::external_type_specification]
#[verifier::external_body]
pub struct ExValue(serde_json::Value);

/// The failure that `serde_json` reports when it cannot parse or serialise.
#[verifier::external_type_specification]
#[verifier::external_body]
pub struct ExJsonError(JsonError);

/// What `serde_json::from_slice` makes of a byte string.
pub uninterp spec fn json_decode(body: Seq<u8>) -> Result<Value, JsonError>;

/// What `serde_json::to_string` makes of a JSON value, as bytes.
pub uninterp spec fn json_encode(value: Value) -> Result<Seq<u8>, JsonError>;

/// The text of a serialisation outcome as a sequence of bytes.
pub open spec fn text_of(encoded: Result<Vec<u8>, JsonError>) -> Result<Seq<u8>, JsonError> {
    match encoded {
        Ok(text) => Ok(text@),
        Err(err) => Err(err),
    }
}

/// Parses `body` with `serde_json::from_slice`. Parsing depends on the bytes
/// alone, so the outcome is the one that `json_decode` names.
#[verifier::external_body]
pub(crate) fn parse_json(body: &[u8]) -> (r: Result<Value, JsonError>)
    ensures
        r == json_decode(body@),
{
    serde_json::from_slice(body)
}

/// Serialises `value` with `serde_json::to_string` and hands the text out as
/// its UTF-8 bytes. Serialising a JSON value depends on the value alone, so
/// the outcome is the one that `json_encode` names.
#[verifier::external_body]
pub(crate) fn serialize_json(value: &Value) -> (r: Result<Vec<u8>, JsonError>)
    ensures
        text_of(r) == json_encode(*value),
{
    serde_json::to_string(value).map(String::into_bytes)
}

} // verus!
