//! The JSON reader that response bodies are decoded with.
//!
//! Parsing is done by `serde_json`. Verus does not look inside that crate, so
//! every contract in this file is a statement about `serde_json` that is taken
//! on trust. A parsed value is opaque to the proofs; what it holds is told by
//! `json_of`, and the contracts of the reader's functions are written over
//! that.

use serde_json::Error;
use serde_json::Value;
use vstd::prelude::*;

verus! {

/// A parsed JSON value, `serde_json::Value`, known to Verus by name only.
#[verifier::external_type_specification]
#[verifier::external_body]
pub struct ExValue(serde_json::Value);

/// The failure of a parse, `serde_json::Error`, known to Verus by name only.
#[verifier::external_type_specification]
#[verifier::external_body]
pub struct ExError(serde_json::Error);

/// What a JSON value holds, one level deep. The variants are those of
/// `serde_json::Value`; the elements of an array and the members of an
/// object are values in their turn.
pub enum Json {
    Null,
    Bool(bool),
    /// A number. The field holds it where it is a whole number from zero to
    /// the largest `u64`, and is `None` for any other number.
    Number(Option<u64>),
    String(Seq<char>),
    Array(Seq<Value>),
    Object(Map<Seq<char>, Value>),
}

/// What `value` holds.
pub uninterp spec fn json_of(value: Value) -> Json;

/// What `serde_json::from_str::<Value>` returns for `text`.
pub uninterp spec fn json_document(text: Seq<char>) -> Result<Value, Error>;

/// What the `Display` form of a `serde_json::Error` is.
pub uninterp spec fn json_error_text(error: Error) -> Seq<char>;

/// Calls `serde_json::from_str` for a `Value`. The function reads the whole of
/// `text` as one JSON document; its result depends on `text` alone, and the
/// contract gives that result its name.
#[verifier::external_body]
pub(crate) fn parse(text: &str) -> (r: Result<Value, Error>)
    ensures
        r == json_document(text@),
{
    serde_json::from_str::<Value>(text)
}

/// Calls `Value::get` with a string key. For an object that has a member of
/// that name the function returns the member's value; for an object without
/// one, and for a value that is no object, it returns `None`.
#[verifier::external_body]
pub(crate) fn member<'a>(value: &'a Value, key: &str) -> (r: Option<&'a Value>)
    ensures
        match json_of(*value) {
            Json::Object(members) => if members.dom().contains(key@) {
                r == Some(&members[key@])
            } else {
                r is None
            },
            _ => r is None,
        },
{
    value.get(key)
}

/// `Value::as_u64` returns the number of a value that is a whole number from
/// zero to the largest `u64`, and `None` for any other value.
pub assume_specification[ Value::as_u64 ](value: &Value) -> (r: Option<u64>)
    ensures
        match json_of(*value) {
            Json::Number(number) => r == number,
            _ => r is None,
        },
;

/// `Value::as_str` returns the text of a value that is a string, and `None`
/// for any other value.
pub assume_specification<'a>[ Value::as_str ](value: &'a Value) -> (r: Option<&'a str>)
    ensures
        match json_of(*value) {
            Json::String(text) => r is Some && r->Some_0@ == text,
            _ => r is None,
        },
;

/// `Value::as_array` returns the elements of a value that is an array, and
/// `None` for any other value.
pub assume_specification<'a>[ Value::as_array ](value: &'a Value) -> (r: Option<&'a Vec<Value>>)
    ensures
        match json_of(*value) {
            Json::Array(elements) => r is Some && r->Some_0@ == elements,
            _ => r is None,
        },
;

/// `Value::clone` returns a value equal to the one it is called on.
pub assume_specification[ <Value as Clone>::clone ](value: &Value) -> (r: Value)
    ensures
        r == *value,
;

/// Calls `to_string` on a `serde_json::Error`, which writes the error in its
/// `Display` form: the cause, then the line and column where one is known.
#[verifier::external_body]
pub(crate) fn error_text(error: &Error) -> (r: String)
    ensures
        r@ == json_error_text(*error),
{
    error.to_string()
}

} // verus!
