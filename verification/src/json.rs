//! The JSON values that the model's tool calls and answers carry.
//!
//! A `serde_json::Value` is opaque to the verifier. What the library reads
//! from one is named here: the string-valued and the integer-valued members
//! of an object. Everything in this file is believed, not proved.

use vstd::prelude::*;

verus! {

/// `serde_json::Value`: a JSON value, carried through as it is. Nothing is
/// known of what it holds but through the names below.
#[verifier::external_type_specification]
#[verifier::external_body]
pub struct ExJsonValue(serde_json::Value);

/// The members of a JSON object whose value is a string, by member name.
/// Empty for a value that is not an object.
pub uninterp spec fn json_texts(value: serde_json::Value) -> Map<Seq<char>, Seq<char>>;

/// The members of a JSON object whose value is an integer that fits `u64`,
/// by member name. Empty for a value that is not an object.
pub uninterp spec fn json_counts(value: serde_json::Value) -> Map<Seq<char>, u64>;

/// What `serde_json` reads from a text: `None` where it does not accept the
/// text as one JSON document, else the string members and the integer
/// members of the value that the text denotes.
pub uninterp spec fn json_reading(text: Seq<char>) -> Option<
    (Map<Seq<char>, Seq<char>>, Map<Seq<char>, u64>),
>;

/// `Value::get` with a string key, then `Value::as_str`: the member `key`
/// of an object, if it is there and is a string. `get` returns `None` for a
/// missing member and for a value that is not an object; `as_str` returns
/// `None` for anything but a string.
#[verifier::external_body]
pub(crate) fn json_text(value: &serde_json::Value, key: &str) -> (found: Option<String>)
    ensures
        found is Some <==> json_texts(*value).contains_key(key@),
        found matches Some(s) ==> s@ == json_texts(*value)[key@],
{
    Some(value.get(key)?.as_str()?.to_owned())
}

/// `Value::get` with a string key, then `Value::as_u64`: the member `key`
/// of an object, if it is there and is an integer in the range of `u64`.
/// `as_u64` returns `None` for negative numbers, floats and non-numbers.
#[verifier::external_body]
pub(crate) fn json_count(value: &serde_json::Value, key: &str) -> (found: Option<u64>)
    ensures
        found is Some <==> json_counts(*value).contains_key(key@),
        found matches Some(n) ==> n == json_counts(*value)[key@],
{
    value.get(key)?.as_u64()
}

/// `serde_json::from_str` at type `Value`: the value that the text denotes,
/// or `None` where the text is not exactly one JSON document. The result
/// depends on the text alone.
#[verifier::external_body]
pub(crate) fn parse_json(text: &str) -> (parsed: Option<serde_json::Value>)
    ensures
        match parsed {
            Some(value) => json_reading(text@) == Some((json_texts(value), json_counts(value))),
            None => json_reading(text@) is None,
        },
{
    serde_json::from_str(text).ok()
}

} // verus!
