//! Reading an unsigned integer out of a JSON text, with `serde_json`.

use vstd::prelude::*;

verus! {

/// `serde_json::Value`: a parsed JSON document. Verus sees nothing inside.
#[verifier::external_type_specification]
#[verifier::external_body]
pub struct ExValue(serde_json::Value);

/// `serde_json::Error`: why a text is not a JSON document.
#[verifier::external_type_specification]
#[verifier::external_body]
pub struct ExError(serde_json::Error);

/// What a document holds, as far as this crate reads it: for each key of a
/// JSON object whose value is a non-negative integer below 2^64, that
/// integer. A document that is not an object holds nothing here.
pub uninterp spec fn unsigned_members(document: serde_json::Value) -> Map<Seq<char>, u64>;

/// What `serde_json` makes of a text: `None` where it is not one JSON
/// document, else the unsigned members of the document.
pub uninterp spec fn parsed_members(text: Seq<char>) -> Option<Map<Seq<char>, u64>>;

/// `serde_json::from_str`, at the type `serde_json::Value`.
///
/// Trusted: the call succeeds exactly on the texts that are JSON documents,
/// and parsing the same text gives a document with the same members.
#[verifier::external_body]
pub(crate) fn parse_document(text: &str) -> (r: Result<serde_json::Value, serde_json::Error>)
    ensures
        match r {
            Ok(document) => parsed_members(text@) == Some(unsigned_members(document)),
            Err(_) => parsed_members(text@) is None,
        },
{
    serde_json::from_str::<serde_json::Value>(text)
}

/// `serde_json::Value::get` with a string key, the value found handed out
/// through `serde_json::Value::as_u64`.
///
/// Trusted: the result is the unsigned member under that key, if the
/// document has one.
#[verifier::external_body]
pub(crate) fn unsigned_member(document: &serde_json::Value, key: &str) -> (r: Option<u64>)
    ensures
        r == if unsigned_members(*document).contains_key(key@) {
            Some(unsigned_members(*document)[key@])
        } else {
            None
        },
{
    document.get(key).and_then(serde_json::Value::as_u64)
}

/// The unsigned integer that a JSON text holds under a key.
#[derive(Clone, Copy, Debug, PartialEq, Eq, Structural)]
pub enum Lookup {
    /// The text is not a JSON document.
    NotJson,
    /// The text is a JSON document without an unsigned integer under the key.
    Absent,
    /// The text is a JSON object with this unsigned integer under the key.
    Found(u64),
}

/// What `read_unsigned` returns for a text whose members are `parsed`.
pub open spec fn lookup_of(parsed: Option<Map<Seq<char>, u64>>, key: Seq<char>) -> Lookup {
    match parsed {
        None => Lookup::NotJson,
        Some(members) => if members.contains_key(key) {
            Lookup::Found(members[key])
        } else {
            Lookup::Absent
        },
    }
}

/// Parses `text` as JSON and looks for an unsigned integer under `key`.
pub fn read_unsigned(text: &str, key: &str) -> (r: Lookup)
    ensures
        r == lookup_of(parsed_members(text@), key@),
{
    match parse_document(text) {
        Ok(document) => match unsigned_member(&document, key) {
            Some(number) => Lookup::Found(number),
            None => Lookup::Absent,
        },
        Err(_) => Lookup::NotJson,
    }
}

} // verus!
