//! JSON documents read with `serde_json`, seen through the strings they hold.

use vstd::prelude::*;

verus! {

#[verifier::external_type_specification]
#[verifier::external_body]
pub struct ExValue(serde_json::Value);

/// The strings held in a JSON value, keyed by their JSON Pointer (RFC 6901):
/// `"/asset/id"` maps to the string at member `id` of member `asset`.
/// Pointers that address no value, or a value that is not a string, are absent.
pub uninterp spec fn json_strings(v: serde_json::Value) -> Map<Seq<char>, Seq<char>>;

/// The strings of the document that `serde_json::from_str` reads from `text`,
/// keyed as in `json_strings`; `None` where the text is not one JSON value.
pub uninterp spec fn json_document(text: Seq<char>) -> Option<Map<Seq<char>, Seq<char>>>;

/// Relies on `serde_json::from_str::<Value>`: parses the whole text as one
/// JSON value, or fails.
#[verifier::external_body]
pub(crate) fn parse_json(text: &str) -> (r: Option<serde_json::Value>)
    ensures
        match r {
            Some(v) => json_document(text@) == Some(json_strings(v)),
            None => json_document(text@) is None,
        },
{
    serde_json::from_str::<serde_json::Value>(text).ok()
}

/// Relies on `serde_json::Value::pointer`: the value at a JSON Pointer, kept
/// only where it is a string.
#[verifier::external_body]
pub(crate) fn string_at(v: &serde_json::Value, pointer: &str) -> (r: Option<String>)
    ensures
        match r {
            Some(s) => json_strings(*v).contains_key(pointer@) && json_strings(*v)[pointer@] == s@,
            None => !json_strings(*v).contains_key(pointer@),
        },
{
    match v.pointer(pointer) {
        Some(serde_json::Value::String(s)) => Some(s.clone()),
        _ => None,
    }
}

} // verus!
