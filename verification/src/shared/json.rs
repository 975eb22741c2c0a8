//! Reading fields out of JSON documents.

use vstd::prelude::*;

verus! {

#[verifier::external_type_specification]
#[verifier::external_body]
pub struct ExJsonValue(serde_json::Value);

/// What a document holds under a name.
#[derive(Debug)]
pub enum Field<T> {
    /// The document is no object, or has no such name.
    Missing,
    /// The name is there, with a value of another type.
    Mistyped,
    Present(T),
}

/// `serde_json::from_slice` for a `serde_json::Value`: the document that
/// `bytes` hold, or the error where they hold none. Which bytes hold a
/// document, and with what members, is what `json_document` names.
#[verifier::external_body]
pub(crate) fn json_from_slice(bytes: &[u8]) -> (r: Result<serde_json::Value, serde_json::Error>)
    ensures
        match r {
            Ok(doc) => json_document(bytes@) == Some(json_members(doc)),
            Err(_) => json_document(bytes@) is None,
        },
{
    serde_json::from_slice(bytes)
}

/// `serde_json::Value::get` with a name: the value under that name where
/// the document is an object that has it, and nothing where it is no object
/// or has no such name.
#[verifier::external_body]
pub(crate) fn json_get<'a>(doc: &'a serde_json::Value, name: &str) -> (r: Option<
    &'a serde_json::Value,
>)
    ensures
        match r {
            Some(value) => json_members(*doc).contains_key(name@) && json_members(*doc)[name@]
                == json_scalar(*value),
            None => !json_members(*doc).contains_key(name@),
        },
{
    doc.get(name)
}

/// `serde_json::Value::as_str`: the text, where the value is a string, and
/// nothing where it is anything else.
#[verifier::external_body]
pub(crate) fn json_as_str(value: &serde_json::Value) -> (r: Option<String>)
    ensures
        match r {
            Some(text) => json_scalar(*value) == JsonScalar::Text(text@),
            None => !(json_scalar(*value) is Text),
        },
{
    value.as_str().map(str::to_owned)
}

/// `serde_json::Value::as_bool`: the truth value, where the value is one,
/// and nothing where it is anything else.
#[verifier::external_body]
pub(crate) fn json_as_bool(value: &serde_json::Value) -> (r: Option<bool>)
    ensures
        match r {
            Some(flag) => json_scalar(*value) == JsonScalar::Flag(flag),
            None => !(json_scalar(*value) is Flag),
        },
{
    value.as_bool()
}

/// `serde_json::Value::as_u64`: the number, where the value is an integer
/// from 0 to `u64::MAX`, and nothing where it is anything else.
#[verifier::external_body]
pub(crate) fn json_as_u64(value: &serde_json::Value) -> (r: Option<u64>)
    ensures
        match r {
            Some(n) => json_scalar(*value) == JsonScalar::Number(n),
            None => !(json_scalar(*value) is Number),
        },
{
    value.as_u64()
}

/// The text that `doc` holds under `name`.
pub fn text_field(doc: &serde_json::Value, name: &str) -> (r: Field<String>)
    ensures
        field_text(r) == text_member(json_members(*doc), name@),
{
    match json_get(doc, name) {
        None => Field::Missing,
        Some(value) => match json_as_str(value) {
            None => Field::Mistyped,
            Some(text) => Field::Present(text),
        },
    }
}

/// The truth value that `doc` holds under `name`.
pub fn bool_field(doc: &serde_json::Value, name: &str) -> (r: Field<bool>)
    ensures
        r == flag_member(json_members(*doc), name@),
{
    match json_get(doc, name) {
        None => Field::Missing,
        Some(value) => match json_as_bool(value) {
            None => Field::Mistyped,
            Some(b) => Field::Present(b),
        },
    }
}

/// The unsigned number that `doc` holds under `name`.
pub fn number_field(doc: &serde_json::Value, name: &str) -> (r: Field<u64>)
    ensures
        r == number_member(json_members(*doc), name@),
{
    match json_get(doc, name) {
        None => Field::Missing,
        Some(value) => match json_as_u64(value) {
            None => Field::Mistyped,
            Some(n) => Field::Present(n),
        },
    }
}

/// What a JSON value holds, as far as this library reads it.
pub enum JsonScalar {
    /// A string.
    Text(Seq<char>),
    /// `true` or `false`.
    Flag(bool),
    /// An integer from 0 to `u64::MAX`.
    Number(u64),
    /// Anything else: null, another number, an array, an object.
    Other,
}

/// The members of a document.
pub type JsonMembers = Map<Seq<char>, JsonScalar>;

/// What `value` holds.
pub uninterp spec fn json_scalar(value: serde_json::Value) -> JsonScalar;

/// The members of `doc`, each name with what its value holds. A document
/// that is no object has no members.
pub uninterp spec fn json_members(doc: serde_json::Value) -> Map<Seq<char>, JsonScalar>;

/// The members of the document that `bytes` hold as JSON text; `None` where
/// they hold no document.
pub uninterp spec fn json_document(bytes: Seq<u8>) -> Option<Map<Seq<char>, JsonScalar>>;

/// A field of text, seen as its characters.
pub open spec fn field_text(field: Field<String>) -> Field<Seq<char>> {
    match field {
        Field::Missing => Field::Missing,
        Field::Mistyped => Field::Mistyped,
        Field::Present(text) => Field::Present(text@),
    }
}

/// The text among `members` under `name`.
pub open spec fn text_member(members: JsonMembers, name: Seq<char>) -> Field<Seq<char>> {
    if !members.contains_key(name) {
        Field::Missing
    } else {
        match members[name] {
            JsonScalar::Text(text) => Field::Present(text),
            _ => Field::Mistyped,
        }
    }
}

/// The truth value among `members` under `name`.
pub open spec fn flag_member(members: JsonMembers, name: Seq<char>) -> Field<bool> {
    if !members.contains_key(name) {
        Field::Missing
    } else {
        match members[name] {
            JsonScalar::Flag(flag) => Field::Present(flag),
            _ => Field::Mistyped,
        }
    }
}

/// The unsigned number among `members` under `name`.
pub open spec fn number_member(members: JsonMembers, name: Seq<char>) -> Field<u64> {
    if !members.contains_key(name) {
        Field::Missing
    } else {
        match members[name] {
            JsonScalar::Number(n) => Field::Present(n),
            _ => Field::Mistyped,
        }
    }
}

} // verus!
