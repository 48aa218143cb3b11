//! The boundary to the JSON parser.
//!
//! A parsed document is an opaque `serde_json::Value`. What the parser and the
//! accessors of a document return is named here, and the contracts of this
//! crate speak of a document through these names only. Nothing is proved of
//! the items in the first part of this file: they state how `serde_json`
//! behaves.

use vstd::prelude::*;

verus! {

/// A parsed JSON document. Its inside is not visible to the verifier.
#[verifier::external_type_specification]
#[verifier::external_body]
pub struct ExJsonValue(serde_json::Value);

/// What `serde_json::from_str::<Value>` returns for `text`: the document, or
/// the `Debug` rendering of the parser's error.
pub uninterp spec fn json_parse(text: Seq<char>) -> Result<serde_json::Value, Seq<char>>;

/// What `Value::get` returns for a string key: the member of that name if
/// `doc` is an object that has one.
pub uninterp spec fn json_member(doc: serde_json::Value, key: Seq<char>) -> Option<
    serde_json::Value,
>;

/// What `Value::as_bool` returns: the truth value if `doc` is a JSON boolean.
pub uninterp spec fn json_bool(doc: serde_json::Value) -> Option<bool>;

/// What `Value::as_str` returns: the characters if `doc` is a JSON string.
pub uninterp spec fn json_text(doc: serde_json::Value) -> Option<Seq<char>>;

/// What `Value::as_u64` returns: the number if `doc` is a JSON integer in the
/// range of `u64`.
pub uninterp spec fn json_u64(doc: serde_json::Value) -> Option<u64>;

/// Calls `serde_json::from_str::<Value>`. The contract claims only that the
/// outcome is a function of the text: the document on success, the `Debug`
/// rendering of the parser's error on failure.
#[verifier::external_body]
pub(crate) fn parse(text: &str) -> (r: Result<serde_json::Value, String>)
    ensures
        match r {
            Ok(doc) => json_parse(text@) == Ok::<serde_json::Value, Seq<char>>(doc),
            Err(e) => json_parse(text@) == Err::<serde_json::Value, Seq<char>>(e@),
        },
{
    match serde_json::from_str::<serde_json::Value>(text) {
        Ok(doc) => Ok(doc),
        Err(e) => Err(format!("{e:?}")),
    }
}

/// Calls `Value::get` with a string key. The contract claims only that the
/// member found, or its absence, is a function of the document and the key.
#[verifier::external_body]
pub(crate) fn member<'a>(doc: &'a serde_json::Value, key: &str) -> (r: Option<
    &'a serde_json::Value,
>)
    ensures
        match r {
            Some(m) => json_member(*doc, key@) == Some(*m),
            None => json_member(*doc, key@) is None,
        },
{
    doc.get(key)
}

/// `Value::as_bool` returns what [`json_bool`] names.
pub assume_specification[ serde_json::Value::as_bool ](doc: &serde_json::Value) -> (r: Option<
    bool,
>)
    ensures
        r == json_bool(*doc),
;

/// `Value::as_str` returns what [`json_text`] names.
pub assume_specification<'a>[ serde_json::Value::as_str ](doc: &'a serde_json::Value) -> (r:
    Option<&'a str>)
    ensures
        match r {
            Some(s) => json_text(*doc) == Some(s@),
            None => json_text(*doc) is None,
        },
;

/// `Value::as_u64` returns what [`json_u64`] names.
pub assume_specification[ serde_json::Value::as_u64 ](doc: &serde_json::Value) -> (r: Option<
    u64,
>)
    ensures
        r == json_u64(*doc),
;

/// The truth value of the member `key` of `doc`, if `doc` is an object whose
/// member of that name is a boolean.
pub open spec fn member_bool(doc: serde_json::Value, key: Seq<char>) -> Option<bool> {
    match json_member(doc, key) {
        Some(m) => json_bool(m),
        None => None,
    }
}

/// The characters of the member `key` of `doc`, if `doc` is an object whose
/// member of that name is a string.
pub open spec fn member_text(doc: serde_json::Value, key: Seq<char>) -> Option<Seq<char>> {
    match json_member(doc, key) {
        Some(m) => json_text(m),
        None => None,
    }
}

/// The value of the member `key` of `doc`, if `doc` is an object whose member
/// of that name is an integer in the range of `u64`.
pub open spec fn member_u64(doc: serde_json::Value, key: Seq<char>) -> Option<u64> {
    match json_member(doc, key) {
        Some(m) => json_u64(m),
        None => None,
    }
}

/// Reads a boolean member of a document.
pub(crate) fn bool_member(doc: &serde_json::Value, key: &str) -> (r: Option<bool>)
    ensures
        r == member_bool(*doc, key@),
{
    match member(doc, key) {
        Some(m) => m.as_bool(),
        None => None,
    }
}

/// Reads a string member of a document.
pub(crate) fn text_member(doc: &serde_json::Value, key: &str) -> (r: Option<String>)
    ensures
        match r {
            Some(s) => member_text(*doc, key@) == Some(s@),
            None => member_text(*doc, key@) is None,
        },
{
    match member(doc, key) {
        Some(m) => match m.as_str() {
            Some(s) => Some(s.to_owned()),
            None => None,
        },
        None => None,
    }
}

/// Reads an unsigned integer member of a document.
pub(crate) fn u64_member(doc: &serde_json::Value, key: &str) -> (r: Option<u64>)
    ensures
        r == member_u64(*doc, key@),
{
    match member(doc, key) {
        Some(m) => m.as_u64(),
        None => None,
    }
}

} // verus!
