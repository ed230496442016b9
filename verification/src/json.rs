//! JSON documents: a mathematical model of them, and the calls into
//! `serde_json` that parse, inspect, build and print them.
//!
//! Nothing in this module is proved about `serde_json`; each function below
//! states what this crate takes for granted about one of its operations.

use vstd::prelude::*;

verus! {

/// A JSON document as a mathematical value.
///
/// Numbers are split the way `serde_json` stores them: an integer that is not
/// negative, a negative integer, or a floating-point number given by its
/// IEEE 754 bit pattern.
pub enum Json {
    Null,
    Bool(bool),
    Unsigned(u64),
    Negative(i64),
    Float(u64),
    Text(Seq<char>),
    List(Seq<Json>),
    Object(Map<Seq<char>, Json>),
}

/// The member of `doc` under `key`: present when `doc` is an object that has
/// that key.
pub open spec fn lookup(doc: Json, key: Seq<char>) -> Option<Json> {
    match doc {
        Json::Object(fields) => if fields.contains_key(key) {
            Some(fields[key])
        } else {
            None
        },
        _ => None,
    }
}

/// Declares `serde_json::Value` as a type whose inside is not looked at:
/// what a value holds is known only through [`json_of`].
#[verifier::external_type_specification]
#[verifier::external_body]
pub struct ExValue(serde_json::Value);

/// The document that a `serde_json::Value` holds.
pub uninterp spec fn json_of(value: serde_json::Value) -> Json;

/// The document that `serde_json::from_str` reads from a text, or `None`
/// where it rejects the text.
pub uninterp spec fn parsed_text(text: Seq<char>) -> Option<Json>;

/// The compact text that `serde_json::to_string` prints for a document, or
/// `None` where it reports an error instead.
pub uninterp spec fn rendered_text(doc: Json) -> Option<Seq<char>>;

/// Calls `std::str::from_utf8`. Trusted: the bytes are accepted exactly when
/// they are valid UTF-8, and the text returned is what they decode to.
#[verifier::external_body]
pub(crate) fn text_of_bytes(bytes: &[u8]) -> (r: Option<&str>)
    ensures
        r is Some <==> vstd::utf8::valid_utf8(bytes@),
        r is Some ==> r.unwrap()@ == vstd::utf8::decode_utf8(bytes@),
{
    std::str::from_utf8(bytes).ok()
}

/// Calls `serde_json::from_str` for a `serde_json::Value`. Trusted: whether
/// the text is accepted, and the document read from it, depend on the text
/// alone.
#[verifier::external_body]
pub(crate) fn parse_text(text: &str) -> (r: Option<serde_json::Value>)
    ensures
        match r {
            Some(value) => parsed_text(text@) == Some(json_of(value)),
            None => parsed_text(text@) is None,
        },
{
    serde_json::from_str::<serde_json::Value>(text).ok()
}

/// Calls `serde_json::to_string` on a `serde_json::Value`. Trusted: whether
/// a text comes back, and the text, depend on the document alone. Nothing is
/// claimed about which documents get one.
#[verifier::external_body]
pub(crate) fn render(value: &serde_json::Value) -> (r: Option<String>)
    ensures
        match r {
            Some(text) => rendered_text(json_of(*value)) == Some(text@),
            None => rendered_text(json_of(*value)) is None,
        },
{
    serde_json::to_string(value).ok()
}

/// Calls `serde_json::Value::get` with a string key. Trusted: a member is
/// returned exactly when the value is an object that has the key, and it is
/// the member stored under that key.
#[verifier::external_body]
pub(crate) fn member<'a>(value: &'a serde_json::Value, key: &str) -> (r: Option<
    &'a serde_json::Value,
>)
    ensures
        match r {
            Some(item) => lookup(json_of(*value), key@) == Some(json_of(*item)),
            None => lookup(json_of(*value), key@) is None,
        },
{
    value.get(key)
}

/// Calls `serde_json::Value::as_bool`. Trusted: a boolean is returned exactly
/// when the value is that boolean.
#[verifier::external_body]
pub(crate) fn bool_of(value: &serde_json::Value) -> (r: Option<bool>)
    ensures
        match r {
            Some(b) => json_of(*value) == Json::Bool(b),
            None => !(json_of(*value) is Bool),
        },
{
    value.as_bool()
}

/// Calls `serde_json::Value::as_u64`. Trusted: a number is returned exactly
/// when the value is that integer, stored as one that is not negative.
#[verifier::external_body]
pub(crate) fn unsigned_of(value: &serde_json::Value) -> (r: Option<u64>)
    ensures
        match r {
            Some(n) => json_of(*value) == Json::Unsigned(n),
            None => !(json_of(*value) is Unsigned),
        },
{
    value.as_u64()
}

/// Calls `serde_json::Value::as_str`. Trusted: a text is returned exactly
/// when the value is a string, and it is that string.
#[verifier::external_body]
pub(crate) fn text_of<'a>(value: &'a serde_json::Value) -> (r: Option<&'a str>)
    ensures
        match r {
            Some(s) => json_of(*value) == Json::Text(s@),
            None => !(json_of(*value) is Text),
        },
{
    value.as_str()
}

/// Calls `serde_json::Value::as_array`. Trusted: the elements are returned
/// exactly when the value is an array, in the array's order.
#[verifier::external_body]
pub(crate) fn items_of<'a>(value: &'a serde_json::Value) -> (r: Option<
    &'a Vec<serde_json::Value>,
>)
    ensures
        match r {
            Some(items) => json_of(*value) == Json::List(
                items@.map_values(|item: serde_json::Value| json_of(item)),
            ),
            None => !(json_of(*value) is List),
        },
{
    value.as_array()
}

/// Builds `serde_json::Value::Object` around `serde_json::Map::new`.
/// Trusted: the value is the object without members.
#[verifier::external_body]
pub(crate) fn empty_object() -> (r: serde_json::Value)
    ensures
        json_of(r) == Json::Object(Map::empty()),
{
    serde_json::Value::Object(serde_json::Map::new())
}

/// Assigns through `serde_json::Value`'s string `IndexMut`. Trusted: on an
/// object, the member under `key` becomes `item` and the others stay.
#[verifier::external_body]
pub(crate) fn set_member(object: &mut serde_json::Value, key: &str, item: serde_json::Value)
    requires
        json_of(*old(object)) is Object,
    ensures
        json_of(*final(object)) == Json::Object(
            json_of(*old(object))->Object_0.insert(key@, json_of(item)),
        ),
{
    object[key] = item;
}

/// Builds `serde_json::Value::Bool`. Trusted: the value is that boolean.
#[verifier::external_body]
pub(crate) fn bool_value(b: bool) -> (r: serde_json::Value)
    ensures
        json_of(r) == Json::Bool(b),
{
    serde_json::Value::Bool(b)
}

/// Calls `serde_json::Value::from` on a `u64`. Trusted: the value is that
/// integer, stored as one that is not negative.
#[verifier::external_body]
pub(crate) fn unsigned_value(n: u64) -> (r: serde_json::Value)
    ensures
        json_of(r) == Json::Unsigned(n),
{
    serde_json::Value::from(n)
}

/// Calls `serde_json::Value::from` on a `&str`. Trusted: the value is the
/// string with that text.
#[verifier::external_body]
pub(crate) fn text_value(text: &str) -> (r: serde_json::Value)
    ensures
        json_of(r) == Json::Text(text@),
{
    serde_json::Value::from(text)
}

} // verus!
