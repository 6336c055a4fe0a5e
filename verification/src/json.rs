//! JSON values, as the template engine takes its data, and what each of them holds.

use serde_json::Value;
use vstd::prelude::*;

verus! {

/// What a JSON value holds. Numbers are the unsigned integers that the records of this crate
/// hold; a record maps each of its keys to one value.
pub enum Json {
    Null,
    Bool(bool),
    Number(nat),
    Text(Seq<char>),
    List(Seq<Json>),
    Record(Map<Seq<char>, Json>),
}

/// `serde_json::Value`, taken as it is: what one holds is known through `content` alone.
#[verifier::external_type_specification]
#[verifier::external_body]
pub struct ExValue(Value);

/// What a value of `serde_json` holds.
pub uninterp spec fn content(value: Value) -> Json;

/// `serde_json::Map`, taken as it is: what one holds is known through `entries` alone.
#[verifier::external_type_specification]
#[verifier::external_body]
#[verifier::reject_recursive_types(K)]
#[verifier::reject_recursive_types(V)]
pub struct ExObject<K, V>(serde_json::Map<K, V>);

/// The map of a JSON object: from its keys to their values.
pub type Object = serde_json::Map<String, Value>;

/// What the map of a JSON object holds: the value under each of its keys.
pub uninterp spec fn entries(fields: Object) -> Map<Seq<char>, Json>;

/// `serde_json::Value::Null`: the value that holds nothing.
#[verifier::external_body]
pub(crate) fn null() -> (value: Value)
    ensures
        content(value) == Json::Null,
{
    Value::Null
}

/// `serde_json::Value::Bool`: the value that holds `flag`.
#[verifier::external_body]
pub(crate) fn boolean(flag: bool) -> (value: Value)
    ensures
        content(value) == Json::Bool(flag),
{
    Value::Bool(flag)
}

/// `serde_json::Value::from` on a `u64`: the value that holds the number `n`.
#[verifier::external_body]
pub(crate) fn number(n: u64) -> (value: Value)
    ensures
        content(value) == Json::Number(n as nat),
{
    Value::from(n)
}

/// `serde_json::Value::String`: the value that holds the characters of `s`.
#[verifier::external_body]
pub(crate) fn string(s: &str) -> (value: Value)
    ensures
        content(value) == Json::Text(s@),
{
    Value::String(s.to_owned())
}

/// `serde_json::Value::Array`: the value that holds the items, in their order.
#[verifier::external_body]
pub(crate) fn list(items: Vec<Value>) -> (value: Value)
    ensures
        content(value) == Json::List(items@.map_values(|item: Value| content(item))),
{
    Value::Array(items)
}

/// The record without keys.
pub open spec fn empty_record() -> Map<Seq<char>, Json> {
    Map::empty()
}

/// `serde_json::Map::new`: a map that holds nothing.
#[verifier::external_body]
pub(crate) fn object() -> (fields: Object)
    ensures
        entries(fields) == empty_record(),
{
    serde_json::Map::new()
}

/// `serde_json::Map::insert`: afterwards the map holds `value` under `key`, in place of what
/// it held there before, and under every other key what it held before.
#[verifier::external_body]
pub(crate) fn put(fields: &mut Object, key: &str, value: Value)
    ensures
        entries(*final(fields)) == entries(*old(fields)).insert(key@, content(value)),
{
    fields.insert(key.to_owned(), value);
}

/// `serde_json::Value::Object`: the value that holds what the map holds.
#[verifier::external_body]
pub(crate) fn record(fields: Object) -> (value: Value)
    ensures
        content(value) == Json::Record(entries(fields)),
{
    Value::Object(fields)
}

} // verus!
