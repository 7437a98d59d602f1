//! The boundary to `serde_json`: a mathematical model of a JSON value, and
//! the calls into the parser, the printer and `serde_json::Value` that the
//! codecs are built on. Everything else in the crate is proved against the
//! contracts stated here.

use vstd::prelude::*;

verus! {

/// A JSON value as the contracts see it.
pub enum Json {
    Null,
    Bool(bool),
    /// A number held as an integer: between `i64::MIN` and `u64::MAX`.
    Int(int),
    /// Any other number, by the bits of its 64-bit floating-point value.
    Float(u64),
    Text(Seq<char>),
    Array(Seq<Json>),
    Object(Map<Seq<char>, Json>),
}

/// `serde_json::Value`, a parsed JSON value. Nothing is known of what one
/// holds but what `json_of` says of it.
#[verifier::external_type_specification]
#[verifier::external_body]
pub struct ExValue(serde_json::Value);

/// `serde_json::Error`, the report of the parser or the printer. It is
/// carried along and never looked into.
#[verifier::external_type_specification]
#[verifier::external_body]
pub struct ExError(serde_json::Error);

/// The JSON value that a `serde_json::Value` holds.
pub uninterp spec fn json_of(v: serde_json::Value) -> Json;

/// The value that a text parses to; `None` where the text is not exactly one
/// JSON value.
pub uninterp spec fn parse_text(text: Seq<char>) -> Option<Json>;

/// The compact text that a value prints as; `None` where printing fails.
pub uninterp spec fn print_json(j: Json) -> Option<Seq<char>>;

/// The member of an object under a key; `None` for a value that is no object
/// and for an object without that key.
pub open spec fn member_of(j: Json, key: Seq<char>) -> Option<Json> {
    match j {
        Json::Object(members) => if members.contains_key(key) {
            Some(members[key])
        } else {
            None
        },
        _ => None,
    }
}

/// The integer that a value holds: that of a number held as an integer
/// between `i64::MIN` and `u64::MAX`, none for any other value.
pub open spec fn integer_of(j: Json) -> Option<int> {
    match j {
        Json::Int(n) => if i64::MIN <= n <= u64::MAX {
            Some(n)
        } else {
            None
        },
        _ => None,
    }
}

/// The values that a list of `serde_json::Value` holds, in order.
pub open spec fn jsons_of(items: Seq<serde_json::Value>) -> Seq<Json> {
    Seq::new(items.len(), |i: int| json_of(items[i]))
}

/// An object with no members.
pub open spec fn empty_object() -> Json {
    Json::Object(Map::empty())
}

/// The object `j` with `value` under `key`, in place of what was there.
pub open spec fn with_member(j: Json, key: Seq<char>, value: Json) -> Json
    recommends
        j is Object,
{
    Json::Object(j->Object_0.insert(key, value))
}

/// `serde_json::from_str` at `serde_json::Value`: the parsed value, or the
/// parser's error where the text is not exactly one JSON value.
#[verifier::external_body]
pub(crate) fn parse(text: &str) -> (r: Result<serde_json::Value, serde_json::Error>)
    ensures
        match r {
            Ok(v) => parse_text(text@) == Some(json_of(v)),
            Err(_) => parse_text(text@) is None,
        },
{
    serde_json::from_str::<serde_json::Value>(text)
}

/// `serde_json::to_string` on a `serde_json::Value`: its compact text.
#[verifier::external_body]
pub(crate) fn print(v: &serde_json::Value) -> (r: Result<String, serde_json::Error>)
    ensures
        match r {
            Ok(text) => print_json(json_of(*v)) == Some(text@),
            Err(_) => print_json(json_of(*v)) is None,
        },
{
    serde_json::to_string(v)
}

/// `serde_json::Value::get` with a string key: the member under that key
/// where the value is an object that has one, else `None`.
#[verifier::external_body]
pub(crate) fn member<'a>(v: &'a serde_json::Value, key: &str) -> (r: Option<&'a serde_json::Value>)
    ensures
        match r {
            Some(m) => member_of(json_of(*v), key@) == Some(json_of(*m)),
            None => member_of(json_of(*v), key@) is None,
        },
{
    v.get(key)
}

/// `serde_json::Value::is_object`: whether the value is an object.
#[verifier::external_body]
pub(crate) fn is_object(v: &serde_json::Value) -> (r: bool)
    ensures
        r == (json_of(*v) is Object),
{
    v.is_object()
}

/// `serde_json::Value::is_null`: whether the value is `null`.
#[verifier::external_body]
pub(crate) fn is_null(v: &serde_json::Value) -> (r: bool)
    ensures
        r == (json_of(*v) is Null),
{
    v.is_null()
}

/// `serde_json::Value::as_str`: the text of a string, `None` for any other
/// value.
#[verifier::external_body]
pub(crate) fn as_text<'a>(v: &'a serde_json::Value) -> (r: Option<&'a str>)
    ensures
        match r {
            Some(text) => json_of(*v) == Json::Text(text@),
            None => !(json_of(*v) is Text),
        },
{
    v.as_str()
}

/// `serde_json::Value::as_u64`: the number where it is held as an integer
/// that is not negative, `None` for any other value.
#[verifier::external_body]
pub(crate) fn as_u64(v: &serde_json::Value) -> (r: Option<u64>)
    ensures
        match r {
            Some(n) => json_of(*v) == Json::Int(n as int),
            None => !(json_of(*v) matches Json::Int(n) && 0 <= n <= u64::MAX),
        },
{
    v.as_u64()
}

/// `serde_json::Value::as_i64`: the number where it is held as an integer
/// that fits `i64`, `None` for any other value.
#[verifier::external_body]
pub(crate) fn as_i64(v: &serde_json::Value) -> (r: Option<i64>)
    ensures
        match r {
            Some(n) => json_of(*v) == Json::Int(n as int),
            None => !(json_of(*v) matches Json::Int(n) && i64::MIN <= n <= i64::MAX),
        },
{
    v.as_i64()
}

/// `serde_json::Value::as_array`: the elements of an array, `None` for any
/// other value.
#[verifier::external_body]
pub(crate) fn as_array<'a>(v: &'a serde_json::Value) -> (r: Option<&'a Vec<serde_json::Value>>)
    ensures
        match r {
            Some(items) => json_of(*v) == Json::Array(jsons_of(items@)),
            None => !(json_of(*v) is Array),
        },
{
    v.as_array()
}

/// The variant `serde_json::Value::Null`.
#[verifier::external_body]
pub(crate) fn null() -> (r: serde_json::Value)
    ensures
        json_of(r) == Json::Null,
{
    serde_json::Value::Null
}

/// `serde_json::Value::from` on a `u64`: that integer.
#[verifier::external_body]
pub(crate) fn from_u64(n: u64) -> (r: serde_json::Value)
    ensures
        json_of(r) == Json::Int(n as int),
{
    serde_json::Value::from(n)
}

/// `serde_json::Value::from` on an `i64`: that integer.
#[verifier::external_body]
pub(crate) fn from_i64(n: i64) -> (r: serde_json::Value)
    ensures
        json_of(r) == Json::Int(n as int),
{
    serde_json::Value::from(n)
}

/// The variant `serde_json::Value::String`: a string with that text.
#[verifier::external_body]
pub(crate) fn from_text(text: String) -> (r: serde_json::Value)
    ensures
        json_of(r) == Json::Text(text@),
{
    serde_json::Value::String(text)
}

/// The variant `serde_json::Value::Array`: an array of those values, in
/// order.
#[verifier::external_body]
pub(crate) fn from_array(items: Vec<serde_json::Value>) -> (r: serde_json::Value)
    ensures
        json_of(r) == Json::Array(jsons_of(items@)),
{
    serde_json::Value::Array(items)
}

/// The variant `serde_json::Value::Object` on `serde_json::Map::new`: an
/// object with no members.
#[verifier::external_body]
pub(crate) fn new_object() -> (r: serde_json::Value)
    ensures
        json_of(r) == empty_object(),
{
    serde_json::Value::Object(serde_json::Map::new())
}

/// `serde_json::Map::insert` on the members of an object: `value` now stands
/// under `key`, whatever stood there before, and no other member changes.
#[verifier::external_body]
pub(crate) fn insert_member(object: &mut serde_json::Value, key: &str, value: serde_json::Value)
    requires
        json_of(*old(object)) is Object,
    ensures
        json_of(*final(object)) == with_member(json_of(*old(object)), key@, json_of(value)),
{
    if let serde_json::Value::Object(members) = object {
        members.insert(key.to_owned(), value);
    }
}

/// The integer that a value holds, if it holds one.
pub fn as_integer(v: &serde_json::Value) -> (r: Option<i128>)
    ensures
        match r {
            Some(n) => integer_of(json_of(*v)) == Some(n as int),
            None => integer_of(json_of(*v)) is None,
        },
{
    match as_u64(v) {
        Some(n) => Some(n as i128),
        None => match as_i64(v) {
            Some(n) => Some(n as i128),
            None => None,
        },
    }
}

} // verus!
