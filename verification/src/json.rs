//! JSON documents as the library sees them.
//!
//! Parsing is left to `serde_json`. A parsed document stays a
//! `serde_json::Value`; what the library knows of one is its [`JsonView`],
//! and the functions here are the only places where a `Value` is opened.

use serde_json::Value;
use vstd::prelude::*;

verus! {

/// A parsed JSON document of `serde_json`.
#[verifier::external_type_specification]
#[verifier::external_body]
pub struct ExValue(serde_json::Value);

/// The mathematical content of a JSON document.
pub enum JsonView {
    Null,
    Bool(bool),
    /// A number that is a whole, non-negative value of at most 64 bits.
    Count(u64),
    /// Any other number (negative, fractional or with an exponent), by the
    /// way it is written out.
    Number(Seq<char>),
    Text(Seq<char>),
    Array(Seq<JsonView>),
    Object(Map<Seq<char>, JsonView>),
}

/// What a parsed document holds.
pub uninterp spec fn json_of(v: Value) -> JsonView;

/// `serde_json::Value::is_null`: true for the document `null` and for no other.
#[verifier::external_body]
pub(crate) fn is_null(v: &Value) -> (r: bool)
    ensures
        r == (json_of(*v) is Null),
{
    v.is_null()
}

/// `serde_json::Value::as_str`: the text of a string document, and nothing for
/// any other document.
#[verifier::external_body]
pub(crate) fn as_text<'a>(v: &'a Value) -> (r: Option<&'a str>)
    ensures
        r matches Some(s) ==> json_of(*v) == JsonView::Text(s@),
        r is None ==> !(json_of(*v) is Text),
{
    v.as_str()
}

/// `serde_json::Value::as_u64`: the value of a number that is whole,
/// non-negative and fits 64 bits, and nothing for any other document.
#[verifier::external_body]
pub(crate) fn as_count(v: &Value) -> (r: Option<u64>)
    ensures
        r matches Some(n) ==> json_of(*v) == JsonView::Count(n),
        r is None ==> !(json_of(*v) is Count),
{
    v.as_u64()
}

/// `serde_json::Value::get` with a string index: the member of an object
/// under `key`, and nothing where the document is no object or has no such
/// member.
#[verifier::external_body]
pub(crate) fn member<'a>(v: &'a Value, key: &str) -> (r: Option<&'a Value>)
    ensures
        r matches Some(m) ==> has_member(json_of(*v), key@) && json_of(*m) == member_of(
            json_of(*v),
            key@,
        ),
        r is None ==> !has_member(json_of(*v), key@),
{
    v.get(key)
}

/// What a document is written out as.
pub uninterp spec fn json_text(j: JsonView) -> Seq<u8>;

/// `serde_json::Value::Null`: the document `null`.
#[verifier::external_body]
pub(crate) fn null() -> (v: Value)
    ensures
        json_of(v) == JsonView::Null,
{
    Value::Null
}

/// `serde_json::Value::String`: the string document with the given text.
#[verifier::external_body]
pub(crate) fn text(s: String) -> (v: Value)
    ensures
        json_of(v) == JsonView::Text(s@),
{
    Value::String(s)
}

/// `serde_json::Value::from` for `u64`: the number document with the given
/// whole value.
#[verifier::external_body]
pub(crate) fn count(n: u64) -> (v: Value)
    ensures
        json_of(v) == JsonView::Count(n),
{
    Value::from(n)
}

/// `serde_json::Value::Object` over `serde_json::Map::new`: the object
/// without members.
#[verifier::external_body]
pub(crate) fn object() -> (v: Value)
    ensures
        json_of(v) == JsonView::Object(Map::empty()),
{
    Value::Object(serde_json::Map::new())
}

/// `serde_json::Map::insert` on the members of an object: afterwards the
/// object holds `value` under `key`, in place of what it may have held there,
/// and its other members as before.
#[verifier::external_body]
pub(crate) fn put(obj: &mut Value, key: &str, value: Value)
    requires
        json_of(*old(obj)) is Object,
    ensures
        json_of(*final(obj)) == JsonView::Object(
            json_of(*old(obj))->Object_0.insert(key@, json_of(value)),
        ),
{
    if let Some(members) = obj.as_object_mut() {
        members.insert(key.to_owned(), value);
    }
}

/// `serde_json::to_vec` on a document: the bytes that it is written out as.
/// They depend on what the document holds alone. Writing a document
/// succeeds: `to_vec` fails where the value's way of writing itself fails or
/// a map has keys that are no strings, and a `Value` writes each of its
/// variants without an error of its own, has strings for keys, and is
/// written into a vector, which takes every byte.
#[verifier::external_body]
pub(crate) fn render(v: &Value) -> (r: Option<Vec<u8>>)
    ensures
        r is Some,
        r matches Some(bytes) ==> bytes@ == json_text(json_of(*v)),
{
    serde_json::to_vec(v).ok()
}

/// Whether `j` is an object with a member under `key`.
pub open spec fn has_member(j: JsonView, key: Seq<char>) -> bool {
    j matches JsonView::Object(m) && m.dom().contains(key)
}

/// The member of the object `j` under `key`.
pub open spec fn member_of(j: JsonView, key: Seq<char>) -> JsonView
    recommends
        has_member(j, key),
{
    j->Object_0[key]
}

} // verus!
