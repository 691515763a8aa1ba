//! The trusted boundary to the JSON library.
//!
//! Stream frames and tool arguments are JSON; the library reads them
//! through the small set of wrappers below, one per outside function.
//! A `serde_json::Value` is opaque to verification, but every one of
//! these functions is a pure function of its argument, so each gets a
//! name; the verified logic in [`crate::decode`] and [`crate::tools`]
//! then states exactly what it reads out of a document in terms of
//! those names.

use vstd::prelude::*;

verus! {

/// Declares serde_json::Value so it can stand in signatures and
/// fields; the library never looks inside such a value except through
/// the wrappers below.
#[verifier::external_type_specification]
#[verifier::external_body]
pub struct ExValue(serde_json::Value);

/// The result of parsing a byte sequence as one JSON document: the
/// verdict of `serde_json::from_slice`, which depends on its input
/// alone.
pub uninterp spec fn parsed_json(bytes: Seq<u8>) -> Option<serde_json::Value>;

/// Whether a byte sequence is a well-formed JSON document.
pub open spec fn json_decode_ok(bytes: Seq<u8>) -> bool {
    parsed_json(bytes) is Some
}

/// What `serde_json::Value::get` returns: the value at a key of an
/// object, None on a missing key or any other kind of value.
pub uninterp spec fn json_field(v: serde_json::Value, key: Seq<char>) -> Option<serde_json::Value>;

/// What `serde_json::Value::as_str` returns: the content of a JSON
/// string, None on any other kind of value.
pub uninterp spec fn json_string_of(v: serde_json::Value) -> Option<Seq<char>>;

/// What `serde_json::Value::as_u64` returns.
pub uninterp spec fn json_u64_of(v: serde_json::Value) -> Option<u64>;

/// What `serde_json::Value::as_i64` returns.
pub uninterp spec fn json_i64_of(v: serde_json::Value) -> Option<i64>;

/// What `serde_json::Value::as_bool` returns.
pub uninterp spec fn json_bool_of(v: serde_json::Value) -> Option<bool>;

/// What `serde_json::Value::is_object` returns.
pub uninterp spec fn json_object_p(v: serde_json::Value) -> bool;

/// What the Display impl of `serde_json::Value` prints: the value as
/// compact JSON text.
pub uninterp spec fn json_text_of(v: serde_json::Value) -> Seq<char>;

/// The image of an optional owned string.
pub open spec fn str_opt(o: Option<String>) -> Option<Seq<char>> {
    match o {
        Some(s) => Some(s@),
        None => None,
    }
}

/// The string content of a field of an object, when the field is
/// there and is a string.
pub open spec fn str_field(v: serde_json::Value, key: Seq<char>) -> Option<Seq<char>> {
    match json_field(v, key) {
        Some(f) => json_string_of(f),
        None => None,
    }
}

/// The unsigned value of a field of an object, when the field is
/// there and is an unsigned integer.
pub open spec fn u64_field(v: serde_json::Value, key: Seq<char>) -> Option<u64> {
    match json_field(v, key) {
        Some(f) => json_u64_of(f),
        None => None,
    }
}

/// The boolean value of a field of an object, when the field is there
/// and is a boolean.
pub open spec fn bool_field(v: serde_json::Value, key: Seq<char>) -> Option<bool> {
    match json_field(v, key) {
        Some(f) => json_bool_of(f),
        None => None,
    }
}

/// Relies on serde_json::from_slice: parses a JSON document from
/// bytes; the same bytes always parse to the same outcome.
#[verifier::external_body]
pub fn parse_json(bytes: &[u8]) -> (r: Option<serde_json::Value>)
    ensures
        r is Some <==> json_decode_ok(bytes@),
        r matches Some(v) ==> Some(v) == parsed_json(bytes@),
{
    serde_json::from_slice::<serde_json::Value>(bytes).ok()
}

/// Relies on serde_json::Value::get: looks a key up in a JSON object,
/// None on any other value or a missing key.
#[verifier::external_body]
pub fn json_get<'a>(v: &'a serde_json::Value, key: &str) -> (r: Option<&'a serde_json::Value>)
    ensures
        r is Some <==> json_field(*v, key@) is Some,
        r matches Some(f) ==> Some(*f) == json_field(*v, key@),
{
    v.get(key)
}

/// Relies on serde_json::Value::as_str: the content of a JSON string,
/// None on any other value.
#[verifier::external_body]
pub fn json_as_string(v: &serde_json::Value) -> (r: Option<String>)
    ensures
        str_opt(r) == json_string_of(*v),
{
    v.as_str().map(|s| s.to_owned())
}

/// Relies on serde_json::Value::as_u64: a JSON number that is an
/// unsigned 64-bit integer, None on any other value.
#[verifier::external_body]
pub fn json_as_u64(v: &serde_json::Value) -> (r: Option<u64>)
    ensures
        r == json_u64_of(*v),
{
    v.as_u64()
}

/// Relies on serde_json::Value::as_i64: a JSON number that is a
/// signed 64-bit integer, None on any other value.
#[verifier::external_body]
pub fn json_as_i64(v: &serde_json::Value) -> (r: Option<i64>)
    ensures
        r == json_i64_of(*v),
{
    v.as_i64()
}

/// Relies on serde_json::Value::as_bool: a JSON boolean, None on any
/// other value.
#[verifier::external_body]
pub fn json_as_bool(v: &serde_json::Value) -> (r: Option<bool>)
    ensures
        r == json_bool_of(*v),
{
    v.as_bool()
}

/// Relies on serde_json::Value::is_object: whether the value is a JSON
/// object.
#[verifier::external_body]
pub fn json_is_object(v: &serde_json::Value) -> (r: bool)
    ensures
        r == json_object_p(*v),
{
    v.is_object()
}

/// Relies on the Display impl of serde_json::Value: the value printed
/// back as compact JSON text.
#[verifier::external_body]
pub fn json_to_string(v: &serde_json::Value) -> (r: String)
    ensures
        r@ == json_text_of(*v),
{
    v.to_string()
}

/// Read the string content of a field of an object.
pub fn field_string(v: &serde_json::Value, key: &str) -> (r: Option<String>)
    ensures
        str_opt(r) == str_field(*v, key@),
{
    match json_get(v, key) {
        Some(f) => json_as_string(f),
        None => None,
    }
}

/// Read the unsigned value of a field of an object.
pub fn field_u64(v: &serde_json::Value, key: &str) -> (r: Option<u64>)
    ensures
        r == u64_field(*v, key@),
{
    match json_get(v, key) {
        Some(f) => json_as_u64(f),
        None => None,
    }
}

/// Read the boolean value of a field of an object.
pub fn field_bool(v: &serde_json::Value, key: &str) -> (r: Option<bool>)
    ensures
        r == bool_field(*v, key@),
{
    match json_get(v, key) {
        Some(f) => json_as_bool(f),
        None => None,
    }
}

/// Relies on serde_json::Map::new: the JSON object with no members.
#[verifier::external_body]
pub fn empty_json_object() -> (r: serde_json::Value)
    ensures
        json_object_p(r),
{
    serde_json::Value::Object(serde_json::Map::new())
}

} // verus!
