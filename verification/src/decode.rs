//! Reading the members of a parsed JSON object.
//!
//! A response record is decoded in two steps: each member that the record
//! needs is looked up in the document, and the record is then put together
//! from what the lookups gave. This file holds the first step and the rules
//! that both steps share.

use crate::json::json_of;
use crate::json::member;
use crate::json::Json;
use crate::search::ErrorKind;
use crate::search::ErrorModel;
use crate::search::SearchError;
use serde_json::Value;
use vstd::prelude::*;
use vstd::string::*;

verus! {

/// What looking up one member of a JSON object gave.
#[derive(Debug)]
pub enum Field<T> {
    /// The document is no object, or the object has no member of that name.
    Missing,
    /// The member is there, and its value is not of the type asked for.
    Mismatched,
    /// The member's value.
    Found(T),
}

impl<T: View> View for Field<T> {
    type V = Field<T::V>;

    open spec fn view(&self) -> Field<T::V> {
        match *self {
            Field::Missing => Field::Missing,
            Field::Mismatched => Field::Mismatched,
            Field::Found(value) => Field::Found(value@),
        }
    }
}

/// The value of the member `key` of `doc`, where `doc` is an object that has
/// such a member.
pub open spec fn member_of(doc: Value, key: Seq<char>) -> Option<Value> {
    match json_of(doc) {
        Json::Object(members) => if members.dom().contains(key) {
            Some(members[key])
        } else {
            None
        },
        _ => None,
    }
}

/// The member `key` of `doc`, read as an unsigned integer.
pub open spec fn u64_field(doc: Value, key: Seq<char>) -> Field<u64> {
    match member_of(doc, key) {
        None => Field::Missing,
        Some(value) => match json_of(value) {
            Json::Number(Some(number)) => Field::Found(number),
            _ => Field::Mismatched,
        },
    }
}

/// The member `key` of `doc`, read as a string.
pub open spec fn text_field(doc: Value, key: Seq<char>) -> Field<Seq<char>> {
    match member_of(doc, key) {
        None => Field::Missing,
        Some(value) => match json_of(value) {
            Json::String(text) => Field::Found(text),
            _ => Field::Mismatched,
        },
    }
}

/// The member `key` of `doc`, read as an array.
pub open spec fn array_field(doc: Value, key: Seq<char>) -> Field<Seq<Value>> {
    match member_of(doc, key) {
        None => Field::Missing,
        Some(value) => match json_of(value) {
            Json::Array(elements) => Field::Found(elements),
            _ => Field::Mismatched,
        },
    }
}

/// The message for a member that a record needs and the document lacks.
pub open spec fn missing_field(key: Seq<char>) -> Seq<char> {
    "missing field `"@ + key + "`"@
}

/// The message for a member whose value is not of the type `expected`.
pub open spec fn mismatched_field(key: Seq<char>, expected: Seq<char>) -> Seq<char> {
    "invalid type for field `"@ + key + "`, expected "@ + expected
}

/// The value of a member that a record needs, or the message that says why
/// the lookup did not give one.
pub open spec fn required<T>(field: Field<T>, key: Seq<char>, expected: Seq<char>) -> Result<
    T,
    Seq<char>,
> {
    match field {
        Field::Missing => Err(missing_field(key)),
        Field::Mismatched => Err(mismatched_field(key, expected)),
        Field::Found(value) => Ok(value),
    }
}

/// A decoding `result` agrees with an `outcome` over models when both hold
/// the same record, or when `result` is a decode error with the message of
/// `outcome`.
pub open spec fn agrees<T: View>(
    result: Result<T, SearchError>,
    outcome: Result<T::V, Seq<char>>,
) -> bool {
    match (result, outcome) {
        (Ok(value), Ok(model)) => value@ == model,
        (Err(error), Err(message)) => error@ == (ErrorModel { kind: ErrorKind::Decode, message }),
        _ => false,
    }
}

/// Looks up the member `key` of `doc` and reads it as an unsigned integer.
pub fn lookup_u64(doc: &Value, key: &str) -> (field: Field<u64>)
    ensures
        field == u64_field(*doc, key@),
{
    match member(doc, key) {
        None => Field::Missing,
        Some(value) => match value.as_u64() {
            None => Field::Mismatched,
            Some(number) => Field::Found(number),
        },
    }
}

/// Looks up the member `key` of `doc` and reads it as a string.
pub fn lookup_text(doc: &Value, key: &str) -> (field: Field<String>)
    ensures
        field@ == text_field(*doc, key@),
{
    match member(doc, key) {
        None => Field::Missing,
        Some(value) => match value.as_str() {
            None => Field::Mismatched,
            Some(text) => Field::Found(String::from_str(text)),
        },
    }
}

/// Looks up the member `key` of `doc` and reads it as an array, whose
/// elements are copied as they are.
pub fn lookup_array(doc: &Value, key: &str) -> (field: Field<Vec<Value>>)
    ensures
        field@ == array_field(*doc, key@),
{
    match member(doc, key) {
        None => Field::Missing,
        Some(value) => match value.as_array() {
            None => Field::Mismatched,
            Some(elements) => Field::Found(elements.clone()),
        },
    }
}

/// Takes the value out of a lookup that a record needs. A lookup that gave
/// no value becomes a decode error that names the member, and for a value of
/// the wrong type also the type `expected`.
pub fn require<T>(field: Field<T>, key: &str, expected: &str) -> (result: Result<T, SearchError>)
    ensures
        match required(field, key@, expected@) {
            Ok(value) => result == Ok::<T, SearchError>(value),
            Err(message) => result is Err && result->Err_0@ == (ErrorModel {
                kind: ErrorKind::Decode,
                message,
            }),
        },
{
    match field {
        Field::Found(value) => Ok(value),
        Field::Missing => {
            let mut message = String::from_str("missing field `");
            message.append(key);
            message.append("`");
            Err(SearchError::decode(message))
        },
        Field::Mismatched => {
            let mut message = String::from_str("invalid type for field `");
            message.append(key);
            message.append("`, expected ");
            message.append(expected);
            Err(SearchError::decode(message))
        },
    }
}

} // verus!
