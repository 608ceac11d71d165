//! serde_json as the entry codec uses it: a JSON value, the object of such
//! values, and a number. Each is an opaque value to Verus; the functions below
//! are the calls into the crate, with what its source shows of them.

use serde_json::{Number, Value};
use vstd::prelude::*;

verus! {

#[verifier::external_type_specification]
#[verifier::external_body]
pub struct ExValue(Value);

#[verifier::external_type_specification]
#[verifier::external_body]
pub struct ExNumber(Number);

#[verifier::external_type_specification]
#[verifier::external_body]
#[verifier::reject_recursive_types(K)]
#[verifier::reject_recursive_types(V)]
pub struct ExMap<K, V>(serde_json::Map<K, V>);

/// The variant of a JSON value, with what a scalar holds.
#[derive(Debug)]
pub enum JsonKind {
    Null,
    Bool(bool),
    Number(Number),
    Text(String),
    Array,
    Object,
}

/// The variant of a JSON value, with what a scalar holds.
pub uninterp spec fn json_kind(v: Value) -> JsonKind;

/// The map of a JSON object, as `Value::as_object` hands it out; `None` for
/// any other value.
pub uninterp spec fn json_object(v: Value) -> Option<serde_json::Map<String, Value>>;

/// The entries of a JSON object: each name with its value.
pub uninterp spec fn object_fields(m: serde_json::Map<String, Value>) -> Map<Seq<char>, Value>;

/// A JSON number as its `Display` writes it.
pub uninterp spec fn number_text(n: Number) -> Seq<char>;

/// A JSON value as `serde_json::to_string` writes it, where it does.
pub uninterp spec fn json_text(v: Value) -> Option<Seq<char>>;

/// The JSON string `Value::String` of a text.
pub uninterp spec fn text_value(text: Seq<char>) -> Value;

/// The entries of an empty object.
pub open spec fn no_fields() -> Map<Seq<char>, Value> {
    Map::empty()
}

/// Tells the variants of `Value` apart, with a copy of what a scalar holds.
#[verifier::external_body]
pub(crate) fn kind_of(v: &Value) -> (kind: JsonKind)
    ensures
        kind == json_kind(*v),
{
    match v {
        Value::Null => JsonKind::Null,
        Value::Bool(b) => JsonKind::Bool(*b),
        Value::Number(n) => JsonKind::Number(n.clone()),
        Value::String(s) => JsonKind::Text(s.clone()),
        Value::Array(_) => JsonKind::Array,
        Value::Object(_) => JsonKind::Object,
    }
}

/// `Value::as_object`: the map of an object, and `None` for any other value.
#[verifier::external_body]
pub(crate) fn as_object(v: &Value) -> (object: Option<&serde_json::Map<String, Value>>)
    ensures
        object matches Some(m) ==> json_object(*v) == Some(*m),
        object is None ==> json_object(*v) is None,
{
    v.as_object()
}

/// The entries of a JSON object, handed out pair by pair in the order of
/// `Map::iter`: every entry once, under its own name.
#[verifier::external_body]
pub(crate) fn entries_of(object: &serde_json::Map<String, Value>) -> (entries: Vec<(String, Value)>)
    ensures
        forall|i: int|
            0 <= i < entries@.len() ==> object_fields(*object).contains_pair(
                (#[trigger] entries@[i]).0@,
                entries@[i].1,
            ),
        forall|i: int, j: int|
            0 <= i < j < entries@.len() ==> (#[trigger] entries@[i]).0@ != (
            #[trigger] entries@[j]).0@,
        forall|name: Seq<char>|
            object_fields(*object).dom().contains(name) ==> exists|i: int|
                0 <= i < entries@.len() && (#[trigger] entries@[i]).0@ == name,
{
    object.iter().map(|(name, value)| (name.clone(), value.clone())).collect()
}

/// `Number`'s `to_string`: the number as its `Display` writes it.
#[verifier::external_body]
pub(crate) fn number_to_string(n: &Number) -> (text: String)
    ensures
        text@ == number_text(*n),
{
    n.to_string()
}

/// `serde_json::to_string` on a JSON value: its JSON text, or the error with
/// which writing it failed.
#[verifier::external_body]
pub(crate) fn to_json_text(v: &Value) -> (text: Result<String, serde_json::Error>)
    ensures
        text matches Ok(t) ==> json_text(*v) == Some(t@),
        text is Err ==> json_text(*v) is None,
{
    serde_json::to_string(v)
}

/// `Map::new`: an object without entries.
#[verifier::external_body]
pub(crate) fn new_object() -> (object: serde_json::Map<String, Value>)
    ensures
        object_fields(object) == no_fields(),
{
    serde_json::Map::new()
}

/// `Map::insert`: the entry under `name` is now `value`, whether the name was
/// there before or not; the other entries stay.
#[verifier::external_body]
pub(crate) fn insert_field(object: &mut serde_json::Map<String, Value>, name: String, value: Value)
    ensures
        object_fields(*final(object)) == object_fields(*old(object)).insert(name@, value),
{
    object.insert(name, value);
}

/// `Value::String`: the JSON string of a text.
#[verifier::external_body]
pub(crate) fn string_value(text: String) -> (v: Value)
    ensures
        v == text_value(text@),
        json_kind(v) is Text,
        json_kind(v)->Text_0@ == text@,
{
    Value::String(text)
}

/// `Value::Object`: the JSON object of a map.
#[verifier::external_body]
pub(crate) fn object_value(object: serde_json::Map<String, Value>) -> (v: Value)
    ensures
        json_object(v) == Some(object),
        json_kind(v) is Object,
{
    Value::Object(object)
}

} // verus!
