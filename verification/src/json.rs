//! JSON values as this library sees them.
//!
//! Property values and wire payloads are `serde_json::Value`s. Verus cannot look
//! inside one, so every contract speaks of the mathematical document [`Json`]
//! that a value stands for. The functions at the end of this file are the only
//! places where `serde_json` is called; their contracts are assumed, not proved.

use serde_json::{Error, Value};
use vstd::prelude::*;

verus! {

/// `serde_json::Value`, carried through verified code as an opaque value.
#[verifier::external_type_specification]
#[verifier::external_body]
pub struct ExValue(serde_json::Value);

/// `serde_json::Map`, the object type that `serde_json` builds payloads from.
#[verifier::external_type_specification]
#[verifier::external_body]
#[verifier::reject_recursive_types(K)]
#[verifier::reject_recursive_types(V)]
pub struct ExObject<K, V>(serde_json::Map<K, V>);

/// `serde_json::Error`, what a failed serialisation reports.
#[verifier::external_type_specification]
#[verifier::external_body]
pub struct ExJsonError(serde_json::Error);

/// A JSON document as a mathematical value.
///
/// A number that `serde_json` holds as an integer is an `Integer`; any other
/// number is a `Decimal`, kept as the literal that `serde_json` writes for it.
/// Objects are maps: the order of members carries no meaning.
pub ghost enum Json {
    Null,
    Bool(bool),
    Integer(int),
    Decimal(Seq<char>),
    Text(Seq<char>),
    Array(Seq<Json>),
    Object(Map<Seq<char>, Json>),
}

/// The document that a `serde_json::Value` stands for.
pub uninterp spec fn json_of(value: Value) -> Json;

/// The members of a `serde_json::Map`, each value as the document it stands for.
pub uninterp spec fn object_members(object: serde_json::Map<String, Value>) -> Map<Seq<char>, Json>;

/// The compact text that `serde_json::to_string` produces for a document, or
/// `None` where it reports an error.
///
/// The text is a function of the document because `serde_json` writes the
/// members of an object in the order of their keys. That is so in its default
/// build, which this crate uses; with its feature `preserve_order` the order of
/// insertion would show in the text.
pub uninterp spec fn json_text(document: Json) -> Option<Seq<char>>;

/// The documents that a sequence of values stands for, in order.
pub open spec fn json_of_all(values: Seq<Value>) -> Seq<Json> {
    values.map_values(|value: Value| json_of(value))
}

/// Calls `serde_json::Value::String`: the value is the JSON string with exactly
/// the characters of `text`.
#[verifier::external_body]
pub(crate) fn json_string(text: String) -> (value: Value)
    ensures
        json_of(value) == Json::Text(text@),
{
    Value::String(text)
}

/// Calls `serde_json::Value::from` on a `u64`: the value is the JSON number
/// `number`, without a fraction.
#[verifier::external_body]
pub(crate) fn json_number(number: u64) -> (value: Value)
    ensures
        json_of(value) == Json::Integer(number as int),
{
    Value::from(number)
}

/// Calls `serde_json::Value::Array`: the value is the JSON array of the given
/// values, in their order.
#[verifier::external_body]
pub(crate) fn json_array(items: Vec<Value>) -> (value: Value)
    ensures
        json_of(value) == Json::Array(json_of_all(items@)),
{
    Value::Array(items)
}

/// Calls `serde_json::Value::Object`: the value is the JSON object with the
/// members of `object`.
#[verifier::external_body]
pub(crate) fn json_object(object: serde_json::Map<String, Value>) -> (value: Value)
    ensures
        json_of(value) == Json::Object(object_members(object)),
{
    Value::Object(object)
}

/// Calls `serde_json::Map::new`: the object has no members.
#[verifier::external_body]
pub(crate) fn object_new() -> (fresh: serde_json::Map<String, Value>)
    ensures
        object_members(fresh) =~= Map::empty(),
{
    serde_json::Map::new()
}

/// Calls `serde_json::Map::insert`: afterwards `key` maps to `value`, replacing
/// any member that had the same key; every other member is as before.
#[verifier::external_body]
pub(crate) fn object_insert(object: &mut serde_json::Map<String, Value>, key: String, value: Value)
    ensures
        object_members(*final(object)) == object_members(*old(object)).insert(
            key@,
            json_of(value),
        ),
{
    object.insert(key, value);
}

/// Calls `Clone::clone` of `serde_json::Value`: the copy stands for the same
/// document as the value it was made from.
#[verifier::external_body]
pub(crate) fn json_clone(value: &Value) -> (copy: Value)
    ensures
        json_of(copy) == json_of(*value),
{
    value.clone()
}

/// Calls `serde_json::to_string`: the outcome is the one that [`json_text`]
/// names for the document that `value` stands for.
#[verifier::external_body]
pub(crate) fn json_to_string(value: &Value) -> (outcome: Result<String, Error>)
    ensures
        match outcome {
            Ok(text) => json_text(json_of(*value)) == Some(text@),
            Err(_) => json_text(json_of(*value)) is None,
        },
{
    serde_json::to_string(value)
}

} // verus!
