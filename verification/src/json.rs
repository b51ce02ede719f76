//! The boundary to `serde_json`.
//!
//! Everything the library knows about JSON text comes from `serde_json`. The
//! functions here each make one call into it; their contracts are taken on
//! trust and describe the call over [`Json`], the mathematical shape of a JSON
//! value.

use serde_json::Number;
use serde_json::Value;
use vstd::prelude::*;

verus! {

/// `serde_json::Value`: any JSON value. What one holds is [`json_of`] it.
#[verifier::external_type_specification]
#[verifier::external_body]
pub struct ExValue(serde_json::Value);

/// `serde_json::Map`: the members of a JSON object, kept in the order of
/// insertion. What one holds is [`members_of`] it.
#[verifier::external_type_specification]
#[verifier::external_body]
#[verifier::reject_recursive_types(K)]
#[verifier::reject_recursive_types(V)]
pub struct ExObject<K, V>(serde_json::Map<K, V>);

/// `serde_json::Number`: a JSON number. The library carries such numbers and
/// never looks into them.
#[verifier::external_type_specification]
#[verifier::external_body]
pub struct ExNumber(serde_json::Number);

/// `serde_json::Error`: what went wrong in reading or printing. The library
/// takes its message, [`detail_of`] it, and nothing else.
#[verifier::external_type_specification]
#[verifier::external_body]
pub struct ExError(serde_json::Error);

/// One member of a JSON object: its key and its value.
pub type Member = (Seq<char>, Json);

/// A JSON value as a mathematical tree.
///
/// An object is the sequence of its members in the order in which they were
/// inserted; no two members of one object share a key.
pub enum Json {
    Null,
    Bool(bool),
    Number(Number),
    Text(Seq<char>),
    Array(Seq<Json>),
    Object(Seq<Member>),
}

/// The tree that a `serde_json::Value` holds.
pub uninterp spec fn json_of(value: Value) -> Json;

/// The members that a `serde_json::Map` holds, in iteration order.
pub uninterp spec fn members_of(object: serde_json::Map<String, Value>) -> Seq<Member>;

/// What `serde_json::from_str` makes of a text: the tree it reads, or the
/// error it reports. Where the text gives one object the same key twice, the
/// object read holds the key once, with the later value.
pub uninterp spec fn parsed(text: Seq<char>) -> Result<Json, serde_json::Error>;

/// What `serde_json::to_string_pretty` makes of a tree: the indented text, or
/// the error it reports.
pub uninterp spec fn pretty(json: Json) -> Result<Seq<char>, serde_json::Error>;

/// The message that a `serde_json::Error` displays.
pub uninterp spec fn detail_of(error: serde_json::Error) -> Seq<char>;

/// The trees of a sequence of values, element by element.
pub open spec fn jsons_of(values: Seq<Value>) -> Seq<Json> {
    values.map_values(|value: Value| json_of(value))
}

/// Some member of `members` has the key `key`.
pub open spec fn has_key(members: Seq<Member>, key: Seq<char>) -> bool {
    exists|i: int| 0 <= i < members.len() && (#[trigger] members[i]).0 == key
}

/// No two members share a key.
pub open spec fn distinct_keys(members: Seq<Member>) -> bool {
    forall|i: int, j: int|
        0 <= i < j < members.len() ==> (#[trigger] members[i]).0 != (#[trigger] members[j]).0
}

/// The position of a member with the key `key`, where there is one.
pub open spec fn key_index(members: Seq<Member>, key: Seq<char>) -> int {
    choose|i: int| 0 <= i < members.len() && (#[trigger] members[i]).0 == key
}

/// The value stored under `key`, if any member has that key.
pub open spec fn member(members: Seq<Member>, key: Seq<char>) -> Option<Json> {
    if has_key(members, key) {
        Some(members[key_index(members, key)].1)
    } else {
        None
    }
}

/// `serde_json::from_str` at the type `Value`: reads one JSON value from the
/// whole text. The outcome depends on the text alone.
#[verifier::external_body]
pub(crate) fn parse(text: &str) -> (outcome: Result<Value, serde_json::Error>)
    ensures
        match outcome {
            Ok(value) => parsed(text@) == Ok::<Json, serde_json::Error>(json_of(value)),
            Err(error) => parsed(text@) == Err::<Json, serde_json::Error>(error),
        },
{
    serde_json::from_str::<Value>(text)
}

/// `serde_json::to_string_pretty` on a `Value`: writes the value as indented
/// text. The outcome depends on the value alone.
#[verifier::external_body]
pub(crate) fn print_pretty(value: &Value) -> (outcome: Result<String, serde_json::Error>)
    ensures
        match outcome {
            Ok(text) => pretty(json_of(*value)) == Ok::<Seq<char>, serde_json::Error>(text@),
            Err(error) => pretty(json_of(*value)) == Err::<Seq<char>, serde_json::Error>(error),
        },
{
    serde_json::to_string_pretty(value)
}

/// `ToString::to_string` on a `serde_json::Error`: the message the error
/// displays.
#[verifier::external_body]
pub(crate) fn error_detail(error: &serde_json::Error) -> (detail: String)
    ensures
        detail@ == detail_of(*error),
{
    error.to_string()
}

/// `Value::as_array`: the elements if the value is an array, `None` for every
/// other kind of value.
#[verifier::external_body]
pub(crate) fn as_array(value: &Value) -> (items: Option<&Vec<Value>>)
    ensures
        match items {
            Some(items) => json_of(*value) == Json::Array(jsons_of(items@)),
            None => !(json_of(*value) is Array),
        },
{
    value.as_array()
}

/// `Value::as_object`: the map if the value is an object, `None` for every
/// other kind of value. A map never holds one key twice.
#[verifier::external_body]
pub(crate) fn as_object(value: &Value) -> (object: Option<&serde_json::Map<String, Value>>)
    ensures
        match object {
            Some(object) => json_of(*value) == Json::Object(members_of(*object))
                && distinct_keys(members_of(*object)),
            None => !(json_of(*value) is Object),
        },
{
    value.as_object()
}

/// `Value::as_str`: the text if the value is a string, `None` for every other
/// kind of value.
#[verifier::external_body]
pub(crate) fn as_text(value: &Value) -> (text: Option<&str>)
    ensures
        match text {
            Some(text) => json_of(*value) == Json::Text(text@),
            None => !(json_of(*value) is Text),
        },
{
    value.as_str()
}

/// `Value::as_number`: the number if the value is a number, `None` for every
/// other kind of value.
#[verifier::external_body]
pub(crate) fn as_number(value: &Value) -> (number: Option<&Number>)
    ensures
        match number {
            Some(number) => json_of(*value) == Json::Number(*number),
            None => !(json_of(*value) is Number),
        },
{
    value.as_number()
}

/// `Map::get` with a string key: the value of the member with that key, `None`
/// if no member has it.
#[verifier::external_body]
pub(crate) fn object_get<'a>(object: &'a serde_json::Map<String, Value>, key: &str) -> (found:
    Option<&'a Value>)
    ensures
        match found {
            Some(value) => exists|i: int|
                0 <= i < members_of(*object).len() && #[trigger] members_of(*object)[i] == (
                    key@,
                    json_of(*value),
                ),
            None => !has_key(members_of(*object), key@),
        },
{
    object.get(key)
}

/// `Map::new`: a map without members.
#[verifier::external_body]
pub(crate) fn object_new() -> (object: serde_json::Map<String, Value>)
    ensures
        members_of(object) == Seq::<Member>::empty(),
{
    serde_json::Map::new()
}

/// `Map::insert`: a key that the map does not hold yet is added behind all
/// members and `None` comes back; for a key that it holds, the value of that
/// member is replaced where it stands and the value it had comes back.
#[verifier::external_body]
pub(crate) fn object_insert(
    object: &mut serde_json::Map<String, Value>,
    key: String,
    value: Value,
) -> (previous: Option<Value>)
    ensures
        match previous {
            None => !has_key(members_of(*old(object)), key@) && members_of(*final(object))
                == members_of(*old(object)).push((key@, json_of(value))),
            Some(previous) => exists|i: int|
                0 <= i < members_of(*old(object)).len() && #[trigger] members_of(*old(object))[i]
                    == (key@, json_of(previous)) && members_of(*final(object)) == members_of(
                    *old(object),
                ).update(i, (key@, json_of(value))),
        },
{
    object.insert(key, value)
}

/// `Value::Object`: the object with the members of the map.
#[verifier::external_body]
pub(crate) fn object_value(object: serde_json::Map<String, Value>) -> (value: Value)
    ensures
        json_of(value) == Json::Object(members_of(object)),
{
    Value::Object(object)
}

/// `Value::Array`: the array with the given elements.
#[verifier::external_body]
pub(crate) fn array_value(items: Vec<Value>) -> (value: Value)
    ensures
        json_of(value) == Json::Array(jsons_of(items@)),
{
    Value::Array(items)
}

/// `Value::String`: the string with the given text.
#[verifier::external_body]
pub(crate) fn text_value(text: String) -> (value: Value)
    ensures
        json_of(value) == Json::Text(text@),
{
    Value::String(text)
}

/// `Value::Number`: the given number as a value.
#[verifier::external_body]
pub(crate) fn number_value(number: Number) -> (value: Value)
    ensures
        json_of(value) == Json::Number(number),
{
    Value::Number(number)
}

/// `Clone::clone` on a `serde_json::Number`: an equal number.
pub assume_specification[ <serde_json::Number as Clone>::clone ](
    number: &serde_json::Number,
) -> (copy: serde_json::Number)
    ensures
        copy == *number,
;

} // verus!
