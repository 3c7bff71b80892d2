//! Reading of JSON documents through `serde_json`.

use vstd::prelude::*;
use vstd::string::*;

verus! {

/// A JSON value of `serde_json`.
#[verifier::external_type_specification]
#[verifier::external_body]
pub struct ExValue(serde_json::Value);

/// The value that a JSON text denotes, if it is one.
pub uninterp spec fn json_value(text: Seq<char>) -> Option<serde_json::Value>;

/// What is said of a text that denotes no JSON value.
pub uninterp spec fn json_error(text: Seq<char>) -> Seq<char>;

/// The member of a value under a key, if the value is an object that has it.
pub uninterp spec fn json_member(value: serde_json::Value, key: Seq<char>) -> Option<
    serde_json::Value,
>;

/// The elements of a value, if it is an array.
pub uninterp spec fn json_elements(value: serde_json::Value) -> Option<Seq<serde_json::Value>>;

/// The text of a value, if it is a string.
pub uninterp spec fn json_text(value: serde_json::Value) -> Option<Seq<char>>;

/// The number of a value, if it is an integer that fits in 64 bits without a sign.
pub uninterp spec fn json_number(value: serde_json::Value) -> Option<u64>;

/// Calls `serde_json::from_str`: the value that the text denotes, or what is said of
/// a text that denotes none.
#[verifier::external_body]
pub(crate) fn parse_json(text: &str) -> (r: Result<serde_json::Value, String>)
    ensures
        r matches Ok(v) ==> json_value(text@) == Some(v),
        r matches Err(e) ==> json_value(text@) is None && e@ == json_error(text@),
{
    serde_json::from_str::<serde_json::Value>(text).map_err(|e| e.to_string())
}

/// Calls `serde_json::Value::get` with a key: the member of an object, or nothing.
#[verifier::external_body]
pub(crate) fn member<'a>(value: &'a serde_json::Value, key: &str) -> (r: Option<
    &'a serde_json::Value,
>)
    ensures
        r matches Some(v) ==> json_member(*value, key@) == Some(*v),
        r is None ==> json_member(*value, key@) is None,
{
    value.get(key)
}

/// Calls `serde_json::Value::as_array`: the elements of an array, in order, or
/// nothing.
#[verifier::external_body]
pub(crate) fn elements(value: &serde_json::Value) -> (r: Option<&Vec<serde_json::Value>>)
    ensures
        r matches Some(v) ==> json_elements(*value) == Some(v@),
        r is None ==> json_elements(*value) is None,
{
    value.as_array()
}

/// Calls `serde_json::Value::as_str`: the text of a string, or nothing.
#[verifier::external_body]
pub(crate) fn string_text(value: &serde_json::Value) -> (r: Option<&str>)
    ensures
        r matches Some(s) ==> json_text(*value) == Some(s@),
        r is None ==> json_text(*value) is None,
{
    value.as_str()
}

/// Calls `serde_json::Value::as_u64`: the number of an unsigned integer, or nothing.
#[verifier::external_body]
pub(crate) fn unsigned_number(value: &serde_json::Value) -> (r: Option<u64>)
    ensures
        r == json_number(*value),
{
    value.as_u64()
}

} // verus!
