//! Reading the JSON documents that the server answers with.
//!
//! The documents are parsed by `serde_json`. Of a parsed document this
//! library reads one thing only: the members of its top-level object whose
//! values are strings.

use vstd::prelude::*;

verus! {

/// A parsed JSON document, `serde_json::Value`. Nothing inside it is visible
/// to the proofs; see `string_members`.
#[verifier::external_type_specification]
#[verifier::external_body]
pub struct ExJsonValue(serde_json::Value);

/// The reason why a text is no JSON document, `serde_json::Error`.
#[verifier::external_type_specification]
#[verifier::external_body]
pub struct ExJsonError(serde_json::Error);

/// The string members of a parsed document: for every name under which the
/// document's top-level object holds a string, that string. Empty where the
/// document is no object.
pub uninterp spec fn string_members(doc: serde_json::Value) -> Map<Seq<char>, Seq<char>>;

/// The string members of the document that `text` is parsed to, or `None`
/// where `text` is no JSON document.
pub uninterp spec fn json_members(text: Seq<char>) -> Option<Map<Seq<char>, Seq<char>>>;

/// `serde_json::from_str`, asked for a `serde_json::Value`. The contract
/// claims only that the outcome is a function of the text: it names the
/// string members of the document parsed, and says that there are none to
/// name where the text is turned down.
#[verifier::external_body]
fn parse_value(text: &str) -> (parsed: Result<serde_json::Value, serde_json::Error>)
    ensures
        match parsed {
            Ok(doc) => json_members(text@) == Some(string_members(doc)),
            Err(_) => json_members(text@) is None,
        },
{
    serde_json::from_str::<serde_json::Value>(text)
}

/// `serde_json::Value::get` with a string as the index, followed by
/// `serde_json::Value::as_str`: the string that the document's top-level
/// object holds under `name`, if it holds one. The contract says that this is
/// what `string_members` collects.
#[verifier::external_body]
fn string_at(doc: &serde_json::Value, name: &str) -> (found: Option<String>)
    ensures
        match found {
            Some(value) => string_members(*doc).contains_key(name@) && string_members(
                *doc,
            )[name@] == value@,
            None => !string_members(*doc).contains_key(name@),
        },
{
    doc.get(name).and_then(serde_json::Value::as_str).map(str::to_owned)
}

/// The entry of `members` under `name`, if there is one.
pub open spec fn entry(members: Map<Seq<char>, Seq<char>>, name: Seq<char>) -> Option<Seq<char>> {
    if members.contains_key(name) {
        Some(members[name])
    } else {
        None
    }
}

/// An optional string as an optional sequence of characters.
pub open spec fn text_of(value: Option<String>) -> Option<Seq<char>> {
    match value {
        Some(s) => Some(s@),
        None => None,
    }
}

/// Parses `text` as a JSON document; `None` where it is none.
pub fn parse_document(text: &str) -> (parsed: Option<serde_json::Value>)
    ensures
        match parsed {
            Some(doc) => json_members(text@) == Some(string_members(doc)),
            None => json_members(text@) is None,
        },
{
    match parse_value(text) {
        Ok(doc) => Some(doc),
        Err(_) => None,
    }
}

/// The string that `doc` holds under `name` at its top level, if any.
pub fn string_member(doc: &serde_json::Value, name: &str) -> (found: Option<String>)
    ensures
        text_of(found) == entry(string_members(*doc), name@),
{
    string_at(doc, name)
}

} // verus!
