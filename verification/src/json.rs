use vstd::prelude::*;
use serde_json::Value;

verus! {

/// A JSON document of serde_json, of which nothing is known but what the
/// functions below say.
#[verifier::external_type_specification]
#[verifier::external_body]
pub struct ExValue(Value);

/// The map of serde_json in which the members of an object are collected.
#[verifier::external_type_specification]
#[verifier::external_body]
#[verifier::reject_recursive_types(K)]
#[verifier::reject_recursive_types(V)]
pub struct ExJsonObject<K, V>(serde_json::Map<K, V>);

/// The document that `serde_json::from_str` reads from `text`, if it reads one.
pub uninterp spec fn parsed_json(text: Seq<char>) -> Option<Value>;

/// The member that `Value::get` finds in `doc` under the string `key`: there is
/// none unless `doc` is an object that holds the key.
pub uninterp spec fn value_member(doc: Value, key: Seq<char>) -> Option<Value>;

/// What `Value::as_u64` makes of `doc`: its number, if `doc` is a non-negative
/// integer that fits 64 bits.
pub uninterp spec fn value_as_u64(doc: Value) -> Option<u64>;

/// The compact JSON text that serde_json writes for `doc`.
pub uninterp spec fn value_text(doc: Value) -> Seq<char>;

/// The JSON string with the characters `text`.
pub uninterp spec fn json_string(text: Seq<char>) -> Value;

/// The JSON number `n`.
pub uninterp spec fn json_number(n: u64) -> Value;

/// The JSON object with exactly the members `fields`.
pub uninterp spec fn json_object(fields: Map<Seq<char>, Value>) -> Value;

/// The members that an object under construction holds.
pub uninterp spec fn object_fields(object: serde_json::Map<String, Value>) -> Map<Seq<char>, Value>;

/// The members of an object that has none.
pub open spec fn no_members() -> Map<Seq<char>, Value> {
    Map::empty()
}

/// Calls `serde_json::from_str` for a `Value`. `None` stands for every parse
/// error; the document read depends on the text alone.
#[verifier::external_body]
pub(crate) fn parse(text: &str) -> (doc: Option<Value>)
    ensures
        doc == parsed_json(text@),
{
    serde_json::from_str::<Value>(text).ok()
}

/// Calls `Value::get` with a string key: the member of an object under that
/// key, `None` for a missing key and for anything that is no object.
#[verifier::external_body]
pub(crate) fn member<'a>(doc: &'a Value, key: &str) -> (found: Option<&'a Value>)
    ensures
        match found {
            Some(inner) => value_member(*doc, key@) == Some(*inner),
            None => value_member(*doc, key@) is None,
        },
{
    doc.get(key)
}

/// Calls `Value::as_u64`.
#[verifier::external_body]
pub(crate) fn as_u64(doc: &Value) -> (number: Option<u64>)
    ensures
        number == value_as_u64(*doc),
{
    doc.as_u64()
}

/// Calls `Value::to_string`, which writes the document as compact JSON: on one
/// line, since it puts no white space between the parts and writes a line feed
/// inside a string as an escape.
#[verifier::external_body]
pub(crate) fn render(doc: &Value) -> (text: String)
    ensures
        text@ == value_text(*doc),
        !text@.contains('\n'),
{
    doc.to_string()
}

/// `Value::clone` hands back an equal document.
pub assume_specification[ <Value as Clone>::clone ](doc: &Value) -> (copy: Value)
    ensures
        copy == *doc,
;

/// The `Value::Null` of serde_json, which is what the text `null` reads as.
#[verifier::external_body]
pub(crate) fn null() -> (doc: Value)
    ensures
        parsed_json("null"@) == Some(doc),
{
    Value::Null
}

/// Calls `Value::from` on a string slice.
#[verifier::external_body]
pub(crate) fn string_value(text: &str) -> (doc: Value)
    ensures
        doc == json_string(text@),
{
    Value::from(text)
}

/// Calls `Value::from` on an unsigned integer.
#[verifier::external_body]
pub(crate) fn number_value(n: u64) -> (doc: Value)
    ensures
        doc == json_number(n),
{
    Value::from(n)
}

/// Calls `serde_json::Map::new`: an object without members.
#[verifier::external_body]
pub(crate) fn new_object() -> (object: serde_json::Map<String, Value>)
    ensures
        object_fields(object) == no_members(),
{
    serde_json::Map::new()
}

/// Calls `serde_json::Map::insert`: the object then holds `doc` under `key`,
/// in place of what it held there, and its other members as before.
#[verifier::external_body]
pub(crate) fn object_insert(object: &mut serde_json::Map<String, Value>, key: &str, doc: Value)
    ensures
        object_fields(*final(object)) == object_fields(*old(object)).insert(key@, doc),
{
    object.insert(key.to_string(), doc);
}

/// Wraps a finished object as a `Value::Object`.
#[verifier::external_body]
pub(crate) fn object_value(object: serde_json::Map<String, Value>) -> (doc: Value)
    ensures
        doc == json_object(object_fields(object)),
{
    Value::Object(object)
}

} // verus!
