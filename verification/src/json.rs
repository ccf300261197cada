//! The boundary to `serde_json`: a mathematical model of JSON documents, and
//! the calls into the crate, each with the contract that the rest of the
//! library relies on. Nothing in this file is proved: every contract here is
//! taken on trust from `serde_json`'s source and documentation.
//!
//! The model assumes `serde_json` as it is built by default, where an object
//! keeps its entries ordered by key. With the feature `preserve_order` the
//! text written for an object would also depend on the order of insertion,
//! which the model does not record.

use serde_json::Value;
use vstd::prelude::*;

verus! {

/// `serde_json::Value`, carried through verified code as an opaque value.
/// What it holds is given by [`json_of`].
#[verifier::external_type_specification]
#[verifier::external_body]
pub struct ExValue(serde_json::Value);

/// `serde_json::Map`, the object type of `serde_json`. What a
/// `Map<String, Value>` holds is given by [`entries_of`].
#[verifier::external_type_specification]
#[verifier::external_body]
#[verifier::reject_recursive_types(K)]
#[verifier::reject_recursive_types(V)]
pub struct ExMap<K, V>(serde_json::Map<K, V>);

/// `serde_json::Number`. The library never looks inside a number.
#[verifier::external_type_specification]
#[verifier::external_body]
pub struct ExNumber(serde_json::Number);

/// `serde_json::Error`. The library only tells success from failure.
#[verifier::external_type_specification]
#[verifier::external_body]
pub struct ExError(serde_json::Error);

/// A JSON object as `serde_json` holds it in memory.
pub type Object = serde_json::Map<String, Value>;

/// The entries of an object as a mathematical value: a map from keys to
/// documents.
pub type Entries = Map<Seq<char>, Json>;

/// A JSON document as a mathematical value. An object holds each of its
/// keys once and has no order of its own.
pub enum Json {
    Null,
    Bool(bool),
    Number(serde_json::Number),
    String(Seq<char>),
    Array(Seq<Json>),
    Object(Entries),
}

/// The document that a `Value` holds.
pub uninterp spec fn json_of(value: serde_json::Value) -> Json;

/// The entries that an object holds: its keys, and the document under each.
pub uninterp spec fn entries_of(object: serde_json::Map<String, serde_json::Value>) -> Entries;

/// What `serde_json::from_str::<Value>` makes of a text: the document it
/// reads, or `None` where it rejects the text.
pub uninterp spec fn parsed(text: Seq<char>) -> Option<Json>;

/// What `serde_json::to_string` makes of a document: its compact text, on one
/// line, or `None` where serialization fails.
pub uninterp spec fn compact_text(document: Json) -> Option<Seq<char>>;

/// What `serde_json::to_string_pretty` makes of an object with the given
/// entries: its indented text, or `None` where serialization fails.
pub uninterp spec fn pretty_text(entries: Entries) -> Option<Seq<char>>;

/// Calls `serde_json::Map::new`. Trusted: the new object has no entries.
#[verifier::external_body]
pub(crate) fn new_object() -> (r: Object)
    ensures
        entries_of(r) == Entries::empty(),
{
    serde_json::Map::new()
}

/// Calls `serde_json::Map::get`. Trusted: the result is `Some` exactly when
/// the object has an entry under `key`, and then refers to the value of that
/// entry.
#[verifier::external_body]
pub(crate) fn object_get<'a>(object: &'a Object, key: &str) -> (r: Option<&'a Value>)
    ensures
        match r {
            Some(value) => entries_of(*object).contains_key(key@) && entries_of(*object)[key@]
                == json_of(*value),
            None => !entries_of(*object).contains_key(key@),
        },
{
    object.get(key)
}

/// Calls `serde_json::Map::insert`. Trusted: afterwards the object holds
/// `value` under `key`, in place of what it held there before, and every
/// other entry as before. The value that was replaced is dropped.
#[verifier::external_body]
pub(crate) fn object_insert(object: &mut Object, key: String, value: Value)
    ensures
        entries_of(*final(object)) == entries_of(*old(object)).insert(key@, json_of(value)),
{
    object.insert(key, value);
}

/// Builds a `Value::String`. Trusted: the value holds the JSON string with
/// the characters of `text`.
#[verifier::external_body]
pub(crate) fn string_value(text: String) -> (r: Value)
    ensures
        json_of(r) == Json::String(text@),
{
    Value::String(text)
}

/// Tells `Value::Object` from the other variants of `Value`, and hands out
/// the object. Trusted: the result is `Some` exactly when the value holds an
/// object, and then holds the entries of that object.
#[verifier::external_body]
pub(crate) fn into_object(value: Value) -> (r: Option<Object>)
    ensures
        match r {
            Some(object) => json_of(value) == Json::Object(entries_of(object)),
            None => !(json_of(value) is Object),
        },
{
    match value {
        Value::Object(object) => Some(object),
        Value::Null => None,
        Value::Bool(_) => None,
        Value::Number(_) => None,
        Value::String(_) => None,
        Value::Array(_) => None,
    }
}

/// Calls `serde_json::from_str::<Value>`. Trusted: whether the text is
/// accepted, and the document that is read from it, depend on the text alone.
#[verifier::external_body]
pub(crate) fn parse_document(text: &str) -> (r: Result<Value, serde_json::Error>)
    ensures
        match r {
            Ok(value) => parsed(text@) == Some(json_of(value)),
            Err(_) => parsed(text@) is None,
        },
{
    serde_json::from_str::<Value>(text)
}

/// Calls `serde_json::to_string` on a `Value`. Trusted: whether it succeeds,
/// and the text it writes, depend on the document alone.
#[verifier::external_body]
pub(crate) fn write_compact(value: &Value) -> (r: Result<String, serde_json::Error>)
    ensures
        match r {
            Ok(text) => compact_text(json_of(*value)) == Some(text@),
            Err(_) => compact_text(json_of(*value)) is None,
        },
{
    serde_json::to_string(value)
}

/// Calls `serde_json::to_string_pretty` on an object. Trusted: whether it
/// succeeds, and the text it writes, depend on the entries alone.
#[verifier::external_body]
pub(crate) fn write_pretty(object: &Object) -> (r: Result<String, serde_json::Error>)
    ensures
        match r {
            Ok(text) => pretty_text(entries_of(*object)) == Some(text@),
            Err(_) => pretty_text(entries_of(*object)) is None,
        },
{
    serde_json::to_string_pretty(object)
}

} // verus!
