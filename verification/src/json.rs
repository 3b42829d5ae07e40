//! What the library asks of JSON text itself: how many elements a
//! document of map data holds. For everything else the text is decoded
//! before it comes here, since its numbers are floating-point.

use vstd::prelude::*;

verus! {

#[verifier::external_type_specification]
#[verifier::external_body]
pub struct ExValue(serde_json::Value);

/// The JSON value that a text holds, as `serde_json::from_str` reads it;
/// `None` for a text that it does not accept.
pub uninterp spec fn json_of(text: Seq<char>) -> Option<serde_json::Value>;

/// The member of a JSON object under a key, as `Value::get` gives it;
/// `None` for a value that is no object or has no such key.
pub uninterp spec fn json_member(value: serde_json::Value, key: Seq<char>) -> Option<
    serde_json::Value,
>;

/// The number of items of a JSON array, from `Value::as_array`; `None`
/// for a value that is no array.
pub uninterp spec fn json_array_length(value: serde_json::Value) -> Option<nat>;

/// Calls `serde_json::from_str` for a `Value` and drops the error. What
/// it reads is named, not spelled out.
#[verifier::external_body]
pub(crate) fn read_json(text: &str) -> (r: Option<serde_json::Value>)
    ensures
        r == json_of(text@),
{
    serde_json::from_str::<serde_json::Value>(text).ok()
}

/// Calls `Value::get` with a key: the member of an object under the key.
#[verifier::external_body]
pub(crate) fn member<'a>(value: &'a serde_json::Value, key: &str) -> (r: Option<
    &'a serde_json::Value,
>)
    ensures
        match r {
            Some(found) => json_member(*value, key@) == Some(*found),
            None => json_member(*value, key@) is None,
        },
{
    value.get(key)
}

/// Calls `Value::as_array` and takes the length of the vector it gives.
#[verifier::external_body]
pub(crate) fn array_length(value: &serde_json::Value) -> (r: Option<usize>)
    ensures
        match r {
            Some(n) => json_array_length(*value) == Some(n as nat),
            None => json_array_length(*value) is None,
        },
{
    value.as_array().map(Vec::len)
}

/// The number of items of the array under the key `elements` of the JSON
/// object that a text holds; `None` if the text is no JSON, holds no
/// object, or has no array there.
pub open spec fn elements_length(text: Seq<char>) -> Option<nat> {
    match json_of(text) {
        Some(value) => match json_member(value, "elements"@) {
            Some(elements) => json_array_length(elements),
            None => None,
        },
        None => None,
    }
}

/// A length as a count of elements: cut to 32 bits.
pub open spec fn count_of_length(length: Option<nat>) -> Option<u32> {
    match length {
        Some(n) => Some((n % 0x1_0000_0000) as u32),
        None => None,
    }
}

/// A length as a count of elements.
pub fn element_count(length: Option<usize>) -> (r: Option<u32>)
    ensures
        r == count_of_length(
            match length {
                Some(n) => Some(n as nat),
                None => None,
            },
        ),
{
    match length {
        Some(n) => Some(((n as u64) % 0x1_0000_0000) as u32),
        None => None,
    }
}

/// The number of elements in the JSON text of map data, if it has an
/// array of elements.
pub fn parse_element_count(json_data: &str) -> (r: Option<u32>)
    ensures
        r == count_of_length(elements_length(json_data@)),
{
    let length = match read_json(json_data) {
        Some(value) => match member(&value, "elements") {
            Some(elements) => array_length(elements),
            None => None,
        },
        None => None,
    };
    element_count(length)
}

} // verus!
