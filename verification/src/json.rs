//! Trusted declarations around the JSON decoder.  Each member that the
//! build-message grammar reads is a function of the document's characters
//! alone, so each read gets a name, and its wrapper's contract ties the
//! returned value to that name; the verified decoding logic in `message`
//! then states its result exactly over the names.

use vstd::prelude::*;

verus! {

/// serde_json's decode error, carried through opaquely.
#[verifier::external_type_specification]
#[verifier::external_body]
pub struct ExError(serde_json::Error);

/// Whether `doc` parses as one JSON document.
pub uninterp spec fn json_doc_ok(doc: Seq<char>) -> bool;

/// The string member of the parsed document's top-level object under
/// `key`: present exactly when the document parses and holds such a
/// member with a string value.
pub uninterp spec fn str_member_of(doc: Seq<char>, key: Seq<char>) -> Option<Seq<char>>;

/// The boolean member of the parsed document's top-level object under
/// `key`, present on the same terms.
pub uninterp spec fn bool_member_of(doc: Seq<char>, key: Seq<char>) -> Option<bool>;

/// The boolean member under `inner` of the object member under `outer`.
pub uninterp spec fn nested_bool_of(doc: Seq<char>, outer: Seq<char>, inner: Seq<char>) -> Option<
    bool,
>;

/// The optional string member of the parsed document's top-level object
/// under `key`, read as the grammar reads an optional path: the member's
/// text when it is a string, an empty value when the member is absent or
/// null, and no result when the document does not parse or the member is
/// of any other kind.
pub uninterp spec fn opt_str_member_of(doc: Seq<char>, key: Seq<char>) -> Option<
    Option<Seq<char>>,
>;

/// Relies on serde_json::from_str::<Value>: whether the line parses as one
/// JSON document, with the decoder's message when it does not.
#[verifier::external_body]
pub(crate) fn check_json(line: &str) -> (r: Result<(), String>)
    ensures
        r is Ok <==> json_doc_ok(line@),
{
    match serde_json::from_str::<serde_json::Value>(line) {
        Ok(_) => Ok(()),
        Err(e) => Err(e.to_string()),
    }
}

/// Relies on serde_json::from_str::<Value>, Value::get and Value::as_str:
/// the string member of the line's top-level object under `key`.
#[verifier::external_body]
pub(crate) fn str_member(line: &str, key: &str) -> (r: Option<String>)
    ensures
        r.deep_view() == str_member_of(line@, key@),
{
    serde_json::from_str::<serde_json::Value>(line).ok().and_then(
        |v| v.get(key).and_then(|m| m.as_str()).map(|s| s.to_owned()),
    )
}

/// Relies on serde_json::from_str::<Value>, Value::get and Value::as_bool:
/// the boolean member of the line's top-level object under `key`.
#[verifier::external_body]
pub(crate) fn bool_member(line: &str, key: &str) -> (r: Option<bool>)
    ensures
        r == bool_member_of(line@, key@),
{
    serde_json::from_str::<serde_json::Value>(line).ok().and_then(
        |v| v.get(key).and_then(|m| m.as_bool()),
    )
}

/// Relies on serde_json::from_str::<Value>, Value::get and Value::as_bool:
/// the boolean member under `inner` of the object member under `outer`.
#[verifier::external_body]
pub(crate) fn nested_bool(line: &str, outer: &str, inner: &str) -> (r: Option<bool>)
    ensures
        r == nested_bool_of(line@, outer@, inner@),
{
    serde_json::from_str::<serde_json::Value>(line).ok().and_then(
        |v| v.get(outer).and_then(|o| o.get(inner)).and_then(|m| m.as_bool()),
    )
}

/// Relies on serde_json::from_str::<Value>, Value::get, Value::is_null and
/// Value::as_str: the optional string member of the line's top-level
/// object under `key` — its text when a string, empty when absent or null,
/// and no result for any other kind or an unparsable line.
#[verifier::external_body]
pub(crate) fn opt_str_member(line: &str, key: &str) -> (r: Option<Option<String>>)
    ensures
        r.deep_view() == opt_str_member_of(line@, key@),
{
    match serde_json::from_str::<serde_json::Value>(line) {
        Err(_) => None,
        Ok(v) => match v.get(key) {
            None => Some(None),
            Some(m) if m.is_null() => Some(None),
            Some(m) => m.as_str().map(|s| Some(s.to_owned())),
        },
    }
}

/// Relies on the Display rendering of serde_json::Error: the decoder's
/// human-readable message.
#[verifier::external_body]
pub(crate) fn json_error_message(e: &serde_json::Error) -> String {
    e.to_string()
}

} // verus!
