//! The trusted boundary: the few outside calls the pipeline's logic makes.
//!
//! Each function here is believed, not verified; its contract states what the
//! outside code does, over named results. Everything that consumes these
//! results is verified against the contracts alone.

use vstd::prelude::*;

verus! {

/// What `String::from_utf8_lossy` makes of a byte sequence: its characters,
/// with invalid sequences replaced. A function of the bytes alone.
pub uninterp spec fn lossy_utf8(bytes: Seq<u8>) -> Seq<char>;

/// How `serde_json::to_string` renders a string slice as a JSON string
/// literal, quotes and escapes included. A function of the characters alone.
pub uninterp spec fn json_quoted(s: Seq<char>) -> Seq<char>;

/// Whether `serde_json::from_str::<Value>` rejects a string, and with which
/// diagnostic: `None` when the string parses as JSON, the diagnostic's text
/// otherwise. A function of the string alone.
pub uninterp spec fn json_rejection(s: Seq<char>) -> Option<Seq<char>>;

/// The string under `choices[0].message.content` in a JSON reply body, for a
/// body that parses: `None` when the path is absent or does not end in a
/// string. A function of the body alone.
pub uninterp spec fn reply_content_of(body: Seq<char>) -> Option<Seq<char>>;

/// Relies on `String::from_utf8_lossy`: decodes bytes as UTF-8, replacing
/// invalid sequences rather than failing.
#[verifier::external_body]
pub fn decode_lossy(bytes: &[u8]) -> (r: String)
    ensures
        r@ == lossy_utf8(bytes@),
{
    String::from_utf8_lossy(bytes).into_owned()
}

/// Relies on `serde_json::to_string` on a string slice: renders it as a JSON
/// string literal. Serializing a string slice cannot fail, per serde_json's
/// documentation of the error cases.
#[verifier::external_body]
pub fn quote_json_string(s: &str) -> (r: String)
    ensures
        r@ == json_quoted(s@),
{
    serde_json::to_string(s).unwrap()
}

/// Relies on `serde_json::from_str::<Value>` and the `Display` form of
/// `serde_json::Error`: reports the parse diagnostic, or `None` when `s` is
/// valid JSON.
#[verifier::external_body]
pub fn json_rejection_of(s: &str) -> (r: Option<String>)
    ensures
        (r is None) <==> (json_rejection(s@) is None),
        r matches Some(d) ==> json_rejection(s@) == Some(d@),
{
    match serde_json::from_str::<serde_json::Value>(s) {
        Ok(_) => None,
        Err(e) => Some(e.to_string()),
    }
}

/// Relies on `serde_json::from_str::<Value>`, `serde_json::Value::get` and
/// `serde_json::Value::as_str`, all functions of the body text alone: parses
/// the reply body and walks to `choices[0].message.content`. Returns the
/// parse diagnostic when the body is not JSON; otherwise the content string,
/// or `None` when the path is missing or not a string.
#[verifier::external_body]
pub fn read_reply_content(body: &str) -> (r: Result<Option<String>, String>)
    ensures
        r matches Err(d) ==> json_rejection(body@) == Some(d@),
        r is Ok ==> json_rejection(body@) is None,
        r matches Ok(c) ==> ((c matches Some(t) ==> reply_content_of(body@) == Some(t@)) && (
        c is None ==> reply_content_of(body@) is None)),
{
    match serde_json::from_str::<serde_json::Value>(body) {
        Err(e) => Err(e.to_string()),
        Ok(v) => Ok(
            v.get("choices")
                .and_then(|c| c.get(0))
                .and_then(|c| c.get("message"))
                .and_then(|m| m.get("content"))
                .and_then(|c| c.as_str())
                .map(|s| s.to_owned()),
        ),
    }
}

} // verus!
