//! JSON values, as `serde_json` builds them.
//!
//! Contracts speak of a value through [`json_of`], which gives what the value
//! holds as a [`Json`].

use vstd::prelude::*;

verus! {

/// What a JSON value holds.
pub enum Json {
    Null,
    Bool(bool),
    /// A whole number.
    Number(int),
    Text(Seq<char>),
    List(Seq<Json>),
    /// The keys of an object, each with its value.
    Object(Map<Seq<char>, Json>),
}

/// `serde_json::Value`: a JSON value, of which nothing is known but what
/// `json_of` says.
#[verifier::external_type_specification]
#[verifier::external_body]
pub struct ExJsonValue(serde_json::Value);

/// What the `serde_json::Value` `value` holds.
pub uninterp spec fn json_of(value: serde_json::Value) -> Json;

/// What each of `values` holds.
pub open spec fn json_each(values: Seq<serde_json::Value>) -> Seq<Json> {
    values.map_values(|value: serde_json::Value| json_of(value))
}

/// `serde_json::Value::from` on a string slice: the JSON string of that
/// text.
#[verifier::external_body]
pub(crate) fn json_text(text: &str) -> (value: serde_json::Value)
    ensures
        json_of(value) == Json::Text(text@),
{
    serde_json::Value::from(text)
}

/// `serde_json::Value::from` on a `u8`: the JSON number of that value.
#[verifier::external_body]
pub(crate) fn json_number(number: u8) -> (value: serde_json::Value)
    ensures
        json_of(value) == Json::Number(number as int),
{
    serde_json::Value::from(number)
}

/// `serde_json::Value::from` on a vector of values: the JSON array of those
/// values in their order.
#[verifier::external_body]
pub(crate) fn json_list(items: Vec<serde_json::Value>) -> (value: serde_json::Value)
    ensures
        json_of(value) == Json::List(json_each(items@)),
{
    serde_json::Value::from(items)
}

/// `serde_json::Value::from` on `serde_json::Map::new()`: the JSON object
/// without keys.
#[verifier::external_body]
pub(crate) fn json_object() -> (value: serde_json::Value)
    ensures
        json_of(value) == Json::Object(Map::empty()),
{
    serde_json::Value::from(serde_json::Map::new())
}

/// `serde_json::Map::insert` on the map of the object `object`: afterwards
/// the object holds `value` for `key`, in place of what it held for that key
/// before, and its other keys as before.
#[verifier::external_body]
pub(crate) fn json_insert(object: &mut serde_json::Value, key: &str, value: serde_json::Value)
    requires
        json_of(*old(object)) is Object,
    ensures
        json_of(*final(object)) == Json::Object(
            json_of(*old(object))->Object_0.insert(key@, json_of(value)),
        ),
{
    object.as_object_mut().unwrap().insert(key.to_owned(), value);
}

} // verus!
