//! JSON documents, parsed and held by the `serde_json` crate.

use vstd::prelude::*;

verus! {

/// A parsed JSON document.
#[verifier::external_type_specification]
#[verifier::external_body]
pub struct ExValue(serde_json::Value);

/// The error with which `serde_json` refuses a text.
#[verifier::external_type_specification]
#[verifier::external_body]
pub struct ExError(serde_json::Error);

/// The strings in a document: each JSON Pointer that leads to a string
/// value, with that string.
pub uninterp spec fn json_strings(doc: serde_json::Value) -> Map<Seq<char>, Seq<char>>;

/// The strings of the document that `text` spells, or `None` where `text` is
/// not a JSON document to `serde_json`.
pub uninterp spec fn json_document(text: Seq<char>) -> Option<Map<Seq<char>, Seq<char>>>;

/// `serde_json::from_str` for a `Value`.  Whether it accepts the text, and
/// the document it gives, depend on the text alone; the contract names both.
#[verifier::external_body]
pub(crate) fn parse(text: &str) -> (r: Result<serde_json::Value, serde_json::Error>)
    ensures
        match r {
            Ok(doc) => json_document(text@) == Some(json_strings(doc)),
            Err(_) => json_document(text@) is None,
        },
{
    serde_json::from_str::<serde_json::Value>(text)
}

/// `Value::pointer`, then `Value::as_str` on what it found: the string at
/// `pointer`, or `None` where the pointer leads nowhere or to a value that
/// is no string.
#[verifier::external_body]
pub(crate) fn string_at(doc: &serde_json::Value, pointer: &str) -> (r: Option<String>)
    ensures
        match r {
            Some(s) => json_strings(*doc).contains_key(pointer@) && json_strings(*doc)[pointer@]
                == s@,
            None => !json_strings(*doc).contains_key(pointer@),
        },
{
    doc.pointer(pointer).and_then(|v| v.as_str()).map(|s| s.to_string())
}

/// The text with which `serde_json` describes an error.  Nothing is claimed
/// of it.
#[verifier::external_body]
pub(crate) fn error_text(error: &serde_json::Error) -> (r: String) {
    format!("{}", error)
}

} // verus!
