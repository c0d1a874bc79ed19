//! JSON values of the `serde_json` crate, which the library hands through to
//! the servers. A value is opaque; what is made of it is named.

use serde_json::Value;
use vstd::prelude::*;

verus! {

/// A JSON value as `serde_json` holds it.
#[verifier::external_type_specification]
#[verifier::external_body]
pub struct ExValue(serde_json::Value);

/// What an object holds under each key; nothing for a value that is no object.
pub uninterp spec fn json_members(value: Value) -> Option<Map<Seq<char>, Value>>;

/// The JSON string of a text.
pub uninterp spec fn json_text(text: Seq<char>) -> Value;

/// The JSON number of an integer.
pub uninterp spec fn json_int(i: int) -> Value;

/// A JSON truth value.
pub uninterp spec fn json_bool(b: bool) -> Value;

/// The JSON array of a list of integers.
pub uninterp spec fn json_ints(list: Seq<i64>) -> Value;

/// The JSON object that holds one member.
pub uninterp spec fn json_object_of(key: Seq<char>, member: Value) -> Value;

/// A value with a member set; a value that is no object stays as it is.
pub uninterp spec fn json_with_member(value: Value, key: Seq<char>, member: Value) -> Value;

/// `Value::from(&str)`: the result is named, it depends on the text alone.
#[verifier::external_body]
pub(crate) fn text_value(text: &str) -> (value: Value)
    ensures
        value == json_text(text@),
{
    Value::from(text)
}

/// `Value::from(i64)`: the result is named, it depends on the number alone.
#[verifier::external_body]
pub(crate) fn int_value(i: i64) -> (value: Value)
    ensures
        value == json_int(i as int),
{
    Value::from(i)
}

/// `Value::from(bool)`: the result is named, it depends on the flag alone.
#[verifier::external_body]
pub(crate) fn bool_value(b: bool) -> (value: Value)
    ensures
        value == json_bool(b),
{
    Value::from(b)
}

/// `Value::from(Vec<i64>)`: the array of the numbers in order, named.
#[verifier::external_body]
pub(crate) fn ints_value(list: Vec<i64>) -> (value: Value)
    ensures
        value == json_ints(list@),
{
    Value::from(list)
}

/// `Value::from_iter` over one pair: an object that holds just this member.
#[verifier::external_body]
pub(crate) fn object_of(key: &str, member: Value) -> (value: Value)
    ensures
        value == json_object_of(key@, member),
        json_members(value) == Some(Map::<Seq<char>, Value>::empty().insert(key@, member)),
{
    Value::from_iter([(key, member)])
}

/// `Map::insert` on the object behind `Value::as_object_mut`: the member is
/// set and every other one stays; a value that is no object is left alone.
#[verifier::external_body]
pub(crate) fn set_member(value: &mut Value, key: &str, member: Value)
    ensures
        *final(value) == json_with_member(*old(value), key@, member),
        json_members(*final(value)) == match json_members(*old(value)) {
            Some(members) => Some(members.insert(key@, member)),
            None => None,
        },
{
    if let Some(object) = value.as_object_mut() {
        object.insert(key.to_string(), member);
    }
}

/// `Value::clone`: an equal value.
#[verifier::external_body]
pub(crate) fn copy_value(value: &Value) -> (copy: Value)
    ensures
        copy == *value,
{
    value.clone()
}

} // verus!
