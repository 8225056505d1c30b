//! JSON values, which `serde_json` reads and holds.

use vstd::prelude::*;

verus! {

/// A JSON value of `serde_json`.
#[verifier::external_type_specification]
#[verifier::external_body]
pub struct ExJsonValue(serde_json::Value);

/// What is told apart in a JSON value: texts, integers and objects by their
/// contents, and everything else as one.
pub enum Json {
    Text(Seq<char>),
    Integer(int),
    Object(Map<Seq<char>, Json>),
    Other,
}

/// What a `serde_json::Value` holds.
pub uninterp spec fn json_of(value: serde_json::Value) -> Json;

/// What `serde_json::from_slice` reads from bytes; `None` where it fails.
pub uninterp spec fn json_read(bytes: Seq<u8>) -> Option<Json>;

/// The text under `key`, where the value is an object and has a text there.
pub open spec fn text_member(value: Json, key: Seq<char>) -> Option<Seq<char>> {
    match value {
        Json::Object(members) => if members.contains_key(key) {
            match members[key] {
                Json::Text(text) => Some(text),
                _ => None,
            }
        } else {
            None
        },
        _ => None,
    }
}

/// `serde_json::from_slice`: reads one JSON value from bytes, and gives nothing
/// where that fails. Whether it can, and what the value holds, depends on the
/// bytes alone; the grammar is not restated.
#[verifier::external_body]
pub(crate) fn from_slice(bytes: &[u8]) -> (value: Option<serde_json::Value>)
    ensures
        match value {
            Some(v) => json_read(bytes@) == Some(json_of(v)),
            None => json_read(bytes@) is None,
        },
{
    serde_json::from_slice::<serde_json::Value>(bytes).ok()
}

/// `serde_json::Value::get` with a text as index: the member of that name of an
/// object, and nothing of any other value.
#[verifier::external_body]
pub(crate) fn member<'a>(value: &'a serde_json::Value, key: &str) -> (found: Option<
    &'a serde_json::Value,
>)
    ensures
        match found {
            Some(v) => {
                &&& json_of(*value) is Object
                &&& json_of(*value)->Object_0.contains_key(key@)
                &&& json_of(*value)->Object_0[key@] == json_of(*v)
            },
            None => !(json_of(*value) is Object && json_of(*value)->Object_0.contains_key(key@)),
        },
{
    value.get(key)
}

/// `serde_json::Value::as_str`: the characters of a text, and nothing of any
/// other value.
pub assume_specification[ serde_json::Value::as_str ](value: &serde_json::Value) -> (chars: Option<
    &str,
>)
    ensures
        match chars {
            Some(c) => json_of(*value) == Json::Text(c@),
            None => !(json_of(*value) is Text),
        },
;

/// `serde_json::Value::Object` of `serde_json::Map::new`: an object without members.
#[verifier::external_body]
pub(crate) fn empty_object() -> (value: serde_json::Value)
    ensures
        json_of(value) == Json::Object(Map::empty()),
{
    serde_json::Value::Object(serde_json::Map::new())
}

/// `serde_json::Value::String`: a JSON text with the given characters.
#[verifier::external_body]
fn text_value(chars: &str) -> (value: serde_json::Value)
    ensures
        json_of(value) == Json::Text(chars@),
{
    serde_json::Value::String(chars.to_string())
}

/// `serde_json::Value::from` of an `i32`: a JSON number with that value.
#[verifier::external_body]
fn integer_value(number: i32) -> (value: serde_json::Value)
    ensures
        json_of(value) == Json::Integer(number as int),
{
    serde_json::Value::from(number)
}

/// Assignment to `value[key]` through `serde_json::Value`'s `IndexMut`: gives an
/// object a member, in place of one of that name that it may have. On a value
/// that is no object, the assignment would panic or make it one.
#[verifier::external_body]
fn set_member(value: &mut serde_json::Value, key: &str, member: serde_json::Value)
    requires
        json_of(*old(value)) is Object,
    ensures
        json_of(*final(value)) == Json::Object(
            json_of(*old(value))->Object_0.insert(key@, json_of(member)),
        ),
{
    value[key] = member;
}

/// Gives an object a member with a text.
pub(crate) fn set_text(value: &mut serde_json::Value, key: &str, chars: &str)
    requires
        json_of(*old(value)) is Object,
    ensures
        json_of(*final(value)) == Json::Object(
            json_of(*old(value))->Object_0.insert(key@, Json::Text(chars@)),
        ),
{
    set_member(value, key, text_value(chars));
}

/// Gives an object a member with an integer.
pub(crate) fn set_integer(value: &mut serde_json::Value, key: &str, number: i32)
    requires
        json_of(*old(value)) is Object,
    ensures
        json_of(*final(value)) == Json::Object(
            json_of(*old(value))->Object_0.insert(key@, Json::Integer(number as int)),
        ),
{
    set_member(value, key, integer_value(number));
}

/// The text under `key`, where the value is an object and has a text there.
pub fn read_member(value: &serde_json::Value, key: &str) -> (text: Option<String>)
    ensures
        crate::text::opt_text(text) == text_member(json_of(*value), key@),
{
    match member(value, key) {
        Some(found) => match found.as_str() {
            Some(text) => Some(text.to_string()),
            None => None,
        },
        None => None,
    }
}

/// The text under `key`, where the bytes are a JSON object that has a text there.
pub fn read_text_member(bytes: &[u8], key: &str) -> (text: Option<String>)
    ensures
        crate::text::opt_text(text) == match json_read(bytes@) {
            Some(value) => text_member(value, key@),
            None => None,
        },
{
    match from_slice(bytes) {
        Some(value) => read_member(&value, key),
        None => None,
    }
}

} // verus!
