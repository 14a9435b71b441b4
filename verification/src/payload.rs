//! Reading the service's error payload out of a response body. The payload
//! is JSON — `{"error":{"type":"...","message":"..."}}`, with the bare
//! `{"type":"...","message":"..."}` form tolerated — and the parse itself is
//! delegated to `serde_json`; everything decided from its result is verified.

use vstd::prelude::*;
use crate::error::ApifyApiErrorRaw;

verus! {

/// What `serde_json` reads out of a response body: `Some((kind, message))`
/// when the bytes are a JSON object carrying a string `type` and a string
/// `message`, directly or nested under an `error` key, and `None` otherwise.
/// The result is a function of the bytes alone.
pub uninterp spec fn json_error_payload(body: Seq<u8>) -> Option<(Seq<char>, Seq<char>)>;

/// The payload fields as a pair of character sequences.
pub open spec fn payload_view(p: Option<ApifyApiErrorRaw>) -> Option<(Seq<char>, Seq<char>)> {
    match p {
        Some(raw) => Some((raw.kind@, raw.message@)),
        None => None,
    }
}

/// Relies on `serde_json::from_slice::<serde_json::Value>` together with
/// `Value::get`: the parse either yields the JSON document of the body bytes
/// or fails, and both the parse and the two field lookups depend on the
/// bytes alone.
#[verifier::external_body]
pub(crate) fn parse_error_payload(body: &Vec<u8>) -> (r: Option<ApifyApiErrorRaw>)
    ensures
        payload_view(r) == json_error_payload(body@),
{
    let document: serde_json::Value = match serde_json::from_slice(body.as_slice()) {
        Ok(value) => value,
        Err(_) => return None,
    };
    let payload = match document.get("error") {
        Some(inner) => inner,
        None => &document,
    };
    match (payload.get("type"), payload.get("message")) {
        (Some(serde_json::Value::String(kind)), Some(serde_json::Value::String(message))) => {
            Some(ApifyApiErrorRaw { kind: kind.clone(), message: message.clone() })
        },
        _ => None,
    }
}

} // verus!
