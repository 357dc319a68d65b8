//! What this library takes from `serde_json`: reading a text as a JSON
//! document and looking up the string that a document holds at a place.
//!
//! Nothing here is proved. Each item states what the library relies on.

use vstd::prelude::*;
use vstd::string::*;

verus! {

/// A parsed JSON document. Opaque: it is only handed from `parse` to `string_at`.
#[verifier::external_type_specification]
#[verifier::external_body]
pub struct ExValue(serde_json::Value);

/// The reason `serde_json` gives for refusing a text.
#[verifier::external_type_specification]
#[verifier::external_body]
pub struct ExError(serde_json::Error);

/// The strings of a document, each under the JSON Pointer (RFC 6901) that
/// leads to it. A pointer is in the domain exactly when it resolves to a value
/// that is a string.
pub uninterp spec fn strings_of(doc: serde_json::Value) -> Map<Seq<char>, Seq<char>>;

/// What `serde_json` makes of `text`: `None` where it refuses the text as a
/// JSON document, else the strings of the document it reads.
pub uninterp spec fn document_strings(text: Seq<char>) -> Option<Map<Seq<char>, Seq<char>>>;

/// Calls `serde_json::from_str` for a `Value`. The contract claims only that
/// the outcome is a function of the text: it succeeds exactly where
/// `document_strings` is `Some`, and the document read holds those strings.
#[verifier::external_body]
pub(crate) fn parse(text: &str) -> (r: Result<serde_json::Value, serde_json::Error>)
    ensures
        r is Ok <==> document_strings(text@) is Some,
        r is Ok ==> strings_of(r->Ok_0) == document_strings(text@)->0,
{
    serde_json::from_str::<serde_json::Value>(text)
}

/// Calls `Value::pointer` and hands out the text where the value found is a
/// string. The contract says so over `strings_of`: the result is `Some`
/// exactly where `pointer` leads to a string, and then it is that string.
#[verifier::external_body]
pub(crate) fn string_at(doc: &serde_json::Value, pointer: &str) -> (r: Option<String>)
    ensures
        r is Some <==> strings_of(*doc).dom().contains(pointer@),
        r is Some ==> r->0@ == strings_of(*doc)[pointer@],
{
    match doc.pointer(pointer) {
        Some(serde_json::Value::String(s)) => Some(s.clone()),
        _ => None,
    }
}

} // verus!
