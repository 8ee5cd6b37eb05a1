//! The two places where bytes and text meet: the UTF-8 text of a received
//! message, and the JSON text of a string sent back in a failure reply.

use vstd::prelude::*;
use vstd::utf8::{decode_utf8, valid_utf8};

verus! {

/// The error type of `serde_json`.
#[verifier::external_type_specification]
#[verifier::external_body]
pub struct ExSerdeJsonError(serde_json::Error);

/// The JSON text that `serde_json::to_vec` writes for a string: a JSON string
/// literal.
pub uninterp spec fn serde_json_string_text(s: Seq<char>) -> Seq<u8>;

/// Calls `serde_json::to_vec` on the string `s`. The contract claims what the
/// source shows: serialising a string into a `Vec` never fails (the writer
/// cannot fail and a string has no fallible part), and the bytes depend on the
/// characters of `s` alone ([`serde_json_string_text`]). What those bytes are
/// (a JSON string literal, escaped as `serde_json` escapes) is left unsaid.
#[verifier::external_body]
pub(crate) fn json_string_text(s: &str) -> (r: Result<Vec<u8>, serde_json::Error>)
    ensures
        r is Ok,
        r->Ok_0@ == serde_json_string_text(s@),
{
    serde_json::to_vec(s)
}

/// Calls `String::from_utf8` on `bytes`. The contract claims what std's
/// documentation states: the call succeeds exactly on valid UTF-8, and the
/// string then holds the characters that the bytes encode.
#[verifier::external_body]
fn string_from_utf8(bytes: Vec<u8>) -> (r: Option<String>)
    ensures
        r is Some <==> valid_utf8(bytes@),
        r matches Some(s) ==> s@ == decode_utf8(bytes@),
{
    String::from_utf8(bytes).ok()
}

/// The text of a received message payload; `None` where the payload is not
/// valid UTF-8.
pub fn payload_text(payload: Vec<u8>) -> (r: Option<String>)
    ensures
        r is Some <==> valid_utf8(payload@),
        r matches Some(s) ==> s@ == decode_utf8(payload@),
{
    string_from_utf8(payload)
}

} // verus!
