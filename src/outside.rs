//! What the library takes from outside crates, with the facts it relies on.
use vstd::prelude::*;

verus! {

#[verifier::external_type_specification]
#[verifier::external_body]
pub struct ExJsonValue(serde_json::Value);

/// The value that serde_json reads from a JSON text, or `None` where the bytes
/// are not one.
pub uninterp spec fn json_from_bytes(b: Seq<u8>) -> Option<serde_json::Value>;

/// The reason phrase that the HTTP registry gives a status code, if any.
pub uninterp spec fn canonical_reason_of(code: u16) -> Option<Seq<char>>;

/// Relies on `serde_json::from_slice` into `serde_json::Value`: its result
/// depends on the bytes alone, and the text `{}` reads as the empty object.
#[verifier::external_body]
pub(crate) fn parse_json(bytes: &[u8]) -> (r: Option<serde_json::Value>)
    ensures
        r == json_from_bytes(bytes@),
        bytes@ == seq![123u8, 125u8] ==> r is Some,
{
    serde_json::from_slice(bytes).ok()
}

/// Relies on `reqwest::StatusCode::from_u16`, which accepts the codes 100 to
/// 999, and on `canonical_reason`, which looks the code up in the registry of
/// reason phrases.
#[verifier::external_body]
pub(crate) fn reason_phrase(code: u16) -> (r: Option<String>)
    ensures
        r is Some ==> 100 <= code <= 999,
        match r {
            Some(s) => canonical_reason_of(code) == Some(s@),
            None => canonical_reason_of(code) is None,
        },
{
    match reqwest::StatusCode::from_u16(code) {
        Ok(status) => status.canonical_reason().map(String::from),
        Err(_) => None,
    }
}

} // verus!
