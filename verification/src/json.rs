//! What the matcher reads of a JSON value.
//!
//! A value is a `serde_json::Value`, which stays opaque here. `shape` names
//! what such a value holds, as far as the matcher looks, and each accessor
//! below says what it returns in terms of that shape. None of this is proved:
//! it restates what the accessors of `serde_json` are documented to do.
use serde_json::Value;
use vstd::prelude::*;

verus! {

/// A JSON value of `serde_json`.
#[verifier::external_type_specification]
#[verifier::external_body]
pub struct ExValue(serde_json::Value);

/// The map that a JSON object holds its members in.
#[verifier::external_type_specification]
#[verifier::external_body]
#[verifier::reject_recursive_types(K)]
#[verifier::reject_recursive_types(V)]
pub struct ExMap<K, V>(serde_json::Map<K, V>);

/// The six forms of a JSON value, each with what the matcher reads of it: the
/// characters of a text, the elements of an array, the number of members of
/// an object.
pub enum JsonShape {
    Null,
    Bool,
    Number,
    Text(Seq<char>),
    Array(Seq<Value>),
    Object(nat),
}

/// The form of a JSON value and what it holds.
pub uninterp spec fn shape(value: Value) -> JsonShape;

/// The number of members of a JSON object's map.
pub uninterp spec fn members(map: serde_json::Map<String, Value>) -> nat;

/// A JSON value written out as compact JSON text, which is how `serde_json`
/// displays it.
pub uninterp spec fn rendered(value: Value) -> Seq<char>;

/// `Value::is_null`: whether the value is the JSON null.
pub assume_specification[ serde_json::Value::is_null ](value: &serde_json::Value) -> (b: bool)
    ensures
        b == (shape(*value) is Null),
;

/// `Value::as_str`: the text of a JSON string, and nothing for any other
/// value.
pub assume_specification<'a>[ serde_json::Value::as_str ](value: &'a serde_json::Value) -> (text:
    Option<&'a str>)
    ensures
        match text {
            Some(t) => shape(*value) == JsonShape::Text(t@),
            None => !(shape(*value) is Text),
        },
;

/// `Value::as_array`: the elements of a JSON array, in order, and nothing for
/// any other value.
pub assume_specification<'a>[ serde_json::Value::as_array ](value: &'a serde_json::Value) -> (items:
    Option<&'a Vec<serde_json::Value>>)
    ensures
        match items {
            Some(a) => shape(*value) == JsonShape::Array(a@),
            None => !(shape(*value) is Array),
        },
;

/// `Value::as_object`: the map of a JSON object, and nothing for any other
/// value.
pub assume_specification<'a>[ serde_json::Value::as_object ](value: &'a serde_json::Value) -> (map:
    Option<&'a serde_json::Map<String, serde_json::Value>>)
    ensures
        match map {
            Some(m) => shape(*value) == JsonShape::Object(members(*m)),
            None => !(shape(*value) is Object),
        },
;

/// `Map::is_empty`: whether the map has no member.
pub assume_specification[ serde_json::Map::<String, serde_json::Value>::is_empty ](
    map: &serde_json::Map<String, serde_json::Value>,
) -> (b: bool)
    ensures
        b == (members(*map) == 0),
;

/// `Value::to_string`, which comes from the value's `Display`: the value as
/// compact JSON text. The contract only names the result.
#[verifier::external_body]
pub(crate) fn render(value: &Value) -> (text: String)
    ensures
        text@ == rendered(*value),
{
    value.to_string()
}

} // verus!
