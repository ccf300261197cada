//! The two things that can be done to the object of a file: looking a key
//! up, and storing a string under a key.

use crate::failure::Failure;
use crate::json::{
    compact_text, entries_of, object_get, object_insert, pretty_text, string_value,
    write_compact, Entries, Json, Object,
};
use crate::store::{
    content_of, load_json_object, loaded, save_json_object, serialized, text_or_failure,
    text_outcome,
};
use vstd::prelude::*;

verus! {

/// What a lookup of `key` yields: the compact text of the document under the
/// key, or the failure that names the key where the object has no such entry.
pub open spec fn looked_up(entries: Entries, key: Seq<char>) -> Result<
    Seq<char>,
    Failure<Seq<char>>,
> {
    if entries.contains_key(key) {
        serialized(compact_text(entries[key]))
    } else {
        Err(Failure::KeyNotFound { key })
    }
}

/// The entries after `value` was stored under `key`: the key now holds the
/// JSON string `value`, whatever it held before, and nothing else changed.
/// The value is never read as a number, a boolean or `null`.
pub open spec fn assigned(entries: Entries, key: Seq<char>, value: Seq<char>) -> Entries {
    entries.insert(key, Json::String(value))
}

/// What looking `key` up in a file yields: the text to print, or a failure.
pub open spec fn get_outcome(path: Seq<char>, content: Option<Seq<char>>, key: Seq<char>) -> Result<
    Seq<char>,
    Failure<Seq<char>>,
> {
    match loaded(path, content) {
        Ok(entries) => looked_up(entries, key),
        Err(failure) => Err(failure),
    }
}

/// What storing `value` under `key` in a file yields: the new text of the
/// file, or a failure.
pub open spec fn set_outcome(
    path: Seq<char>,
    content: Option<Seq<char>>,
    key: Seq<char>,
    value: Seq<char>,
) -> Result<Seq<char>, Failure<Seq<char>>> {
    match loaded(path, content) {
        Ok(entries) => serialized(pretty_text(assigned(entries, key, value))),
        Err(failure) => Err(failure),
    }
}

/// Looks `key` up in an object.
pub fn lookup(object: &Object, key: &str) -> (r: Result<String, Failure<String>>)
    ensures
        text_outcome(r) == looked_up(entries_of(*object), key@),
{
    match object_get(object, key) {
        Some(value) => text_or_failure(write_compact(value)),
        None => Err(Failure::KeyNotFound { key: key.to_owned() }),
    }
}

/// Stores the string `value` under `key` in an object.
pub fn assign(object: &mut Object, key: &str, value: &str)
    ensures
        entries_of(*final(object)) == assigned(entries_of(*old(object)), key@, value@),
{
    object_insert(object, key.to_owned(), string_value(value.to_owned()));
}

/// Looks `key` up in the file at `file_path`, given the text of the file.
/// Returns the text to print: the value under the key as compact JSON.
pub fn get_value(file_path: &str, content: Option<&str>, key: &str) -> (r: Result<
    String,
    Failure<String>,
>)
    ensures
        text_outcome(r) == get_outcome(file_path@, content_of(content), key@),
{
    match load_json_object(file_path, content) {
        Ok(object) => lookup(&object, key),
        Err(failure) => Err(failure),
    }
}

/// Stores the string `value_str` under `key` in the file at `file_path`,
/// given the text of the file. Returns the text to write back: the whole
/// object, pretty-printed.
pub fn set_value(file_path: &str, content: Option<&str>, key: &str, value_str: &str) -> (r: Result<
    String,
    Failure<String>,
>)
    ensures
        text_outcome(r) == set_outcome(file_path@, content_of(content), key@, value_str@),
{
    match load_json_object(file_path, content) {
        Ok(object) => {
            let mut object = object;
            assign(&mut object, key, value_str);
            save_json_object(&object)
        },
        Err(failure) => Err(failure),
    }
}

} // verus!
