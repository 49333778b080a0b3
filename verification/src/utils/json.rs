//! JSON documents, built with `serde_json`.
//!
//! The engine reads nothing back from the documents it builds, so the
//! `serde_json` types stay opaque; what they hold is described by [`Json`].

use crate::utils::text::texts;
use serde_json::Value;
use vstd::prelude::*;

verus! {

/// `serde_json::Value`, a JSON value.
#[verifier::external_type_specification]
#[verifier::external_body]
pub struct ExValue(serde_json::Value);

/// `serde_json::Map`, the fields of a JSON object.
#[verifier::external_type_specification]
#[verifier::external_body]
#[verifier::reject_recursive_types(K)]
#[verifier::reject_recursive_types(V)]
pub struct ExMap<K, V>(serde_json::Map<K, V>);

/// The mathematical content of a JSON value, as far as this crate builds any.
pub enum Json {
    Null,
    Number(int),
    Text(Seq<char>),
    List(Seq<Json>),
    Object(Map<Seq<char>, Json>),
}

/// The fields of an object that has none.
pub open spec fn no_fields() -> Map<Seq<char>, Json> {
    Map::empty()
}

/// What a `serde_json::Value` holds.
pub uninterp spec fn json_value(value: Value) -> Json;

/// What a `serde_json::Map` holds: the content of each value, by key.
pub uninterp spec fn json_fields(object: serde_json::Map<String, Value>) -> Map<Seq<char>, Json>;

/// The compact JSON text of an object with the given fields, as
/// `serde_json::to_string` writes it.
pub uninterp spec fn json_text(fields: Map<Seq<char>, Json>) -> Seq<char>;

/// `Value::Null`.
#[verifier::external_body]
pub(crate) fn null() -> (value: Value)
    ensures
        json_value(value) == Json::Null,
{
    Value::Null
}

/// `Value::from` on an `i32`: the number `n`.
#[verifier::external_body]
pub(crate) fn number(n: i32) -> (value: Value)
    ensures
        json_value(value) == Json::Number(n as int),
{
    Value::from(n)
}

/// `Value::from` on a `String`: the string `s`.
#[verifier::external_body]
pub(crate) fn text(s: String) -> (value: Value)
    ensures
        json_value(value) == Json::Text(s@),
{
    Value::from(s)
}

/// `Value::Array`: the array of `items`, in order.
#[verifier::external_body]
pub(crate) fn list(items: Vec<Value>) -> (value: Value)
    ensures
        json_value(value) == Json::List(items@.map_values(|item: Value| json_value(item))),
{
    Value::Array(items)
}

/// `Value::Object`: the object with the fields of `fields`.
#[verifier::external_body]
pub(crate) fn object(fields: serde_json::Map<String, Value>) -> (value: Value)
    ensures
        json_value(value) == Json::Object(json_fields(fields)),
{
    Value::Object(fields)
}

/// `Map::new`: an object without fields.
#[verifier::external_body]
pub(crate) fn object_new() -> (fields: serde_json::Map<String, Value>)
    ensures
        json_fields(fields) == no_fields(),
{
    serde_json::Map::new()
}

/// `Map::insert`: sets the field `key` to `value`, replacing any earlier
/// value of that key.
#[verifier::external_body]
pub(crate) fn object_insert(fields: &mut serde_json::Map<String, Value>, key: String, value: Value)
    ensures
        json_fields(*final(fields)) == json_fields(*old(fields)).insert(key@, json_value(value)),
{
    fields.insert(key, value);
}

/// `serde_json::to_string` on an object. It cannot fail on a `Map` with
/// string keys and `Value` fields, so the text is always that of the object.
#[verifier::external_body]
pub(crate) fn object_text(fields: &serde_json::Map<String, Value>) -> (text: String)
    ensures
        text@ == json_text(json_fields(*fields)),
{
    match serde_json::to_string(fields) {
        Ok(text) => text,
        Err(_) => String::new(),
    }
}

/// The array of the strings `texts`.
pub open spec fn text_list_spec(texts: Seq<Seq<char>>) -> Json {
    Json::List(texts.map_values(|t: Seq<char>| Json::Text(t)))
}

/// The array of the given strings, in order.
pub fn text_list(strings: &Vec<String>) -> (value: Value)
    ensures
        json_value(value) == text_list_spec(texts(strings@)),
{
    let mut items: Vec<Value> = Vec::new();
    let mut i: usize = 0;
    while i < strings.len()
        invariant
            i <= strings.len(),
            items@.len() == i,
            forall|j: int|
                0 <= j < i ==> json_value(#[trigger] items@[j]) == Json::Text(strings@[j]@),
        decreases strings.len() - i,
    {
        items.push(text(strings[i].clone()));
        i += 1;
    }
    assert(items@.map_values(|item: Value| json_value(item)) =~= texts(strings@).map_values(
        |t: Seq<char>| Json::Text(t),
    ));
    list(items)
}

} // verus!
