//! The JSON values that cross the library's edge, read and written by
//! `serde_json`. A value is opaque here; what the rules read of it has a
//! name below.

use vstd::prelude::*;

verus! {

/// `serde_json::Value`: any JSON value. Opaque here; the names below say
/// what the library reads of one.
#[verifier::external_type_specification]
#[verifier::external_body]
pub struct ExJsonValue(serde_json::Value);

/// The members of a JSON object whose values are strings, by name. Empty for
/// a value that is no object.
pub uninterp spec fn text_members(value: serde_json::Value) -> Map<Seq<char>, Seq<char>>;

/// The members of a JSON object whose values are integers from 0 to
/// `u64::MAX`, by name. Empty for a value that is no object.
pub uninterp spec fn count_members(value: serde_json::Value) -> Map<Seq<char>, u64>;

/// The JSON text of a string: the text in double quotes, with the escapes
/// that JSON asks for.
pub uninterp spec fn json_string_text(text: Seq<char>) -> Seq<char>;

/// `serde_json::Value::get` with a string index: the member of that name,
/// handed out where it is a JSON string.
#[verifier::external_body]
pub(crate) fn member_text(value: &serde_json::Value, name: &str) -> (r: Option<String>)
    ensures
        r is Some <==> text_members(*value).contains_key(name@),
        r matches Some(text) ==> text_members(*value)[name@] == text@,
{
    match value.get(name) {
        Some(serde_json::Value::String(text)) => Some(text.clone()),
        _ => None,
    }
}

/// `serde_json::Value::get` with a string index, then `Number::as_u64`: the
/// member of that name, handed out where it is an integer that `u64` holds.
#[verifier::external_body]
pub(crate) fn member_count(value: &serde_json::Value, name: &str) -> (r: Option<u64>)
    ensures
        r is Some <==> count_members(*value).contains_key(name@),
        r matches Some(count) ==> count_members(*value)[name@] == count,
{
    match value.get(name) {
        Some(serde_json::Value::Number(number)) => number.as_u64(),
        _ => None,
    }
}

/// `serde_json::Value::String(..)` written out by `to_string`, which goes
/// through the value's `Display` impl and gives compact JSON. The text of
/// the result depends on the argument alone; it is named, not spelled out.
#[verifier::external_body]
pub(crate) fn json_string(text: &str) -> (r: String)
    ensures
        r@ == json_string_text(text@),
{
    serde_json::Value::String(text.to_owned()).to_string()
}

} // verus!
