//! Reading the object out of the text of a file, and writing it back as text.
//!
//! The file itself is the caller's business. A file that does not exist is
//! handed in as `None` and stands for an object without entries.

use crate::failure::Failure;
use crate::json::{
    entries_of, into_object, json_of, new_object, parse_document, parsed, pretty_text,
    write_pretty, Entries, Json, Object,
};
use serde_json::Value;
use vstd::prelude::*;

verus! {

/// The text of a file as contracts see it.
pub open spec fn content_of(content: Option<&str>) -> Option<Seq<char>> {
    match content {
        Some(text) => Some(text@),
        None => None,
    }
}

/// What the parser returned, as contracts see it: the document, or `None`
/// where the text was rejected.
pub open spec fn root_of(root: Result<Value, serde_json::Error>) -> Option<Json> {
    match root {
        Ok(value) => Some(json_of(value)),
        Err(_) => None,
    }
}

/// What the serializer returned, as contracts see it: the text, or `None`
/// where it failed.
pub open spec fn written_of(written: Result<String, serde_json::Error>) -> Option<Seq<char>> {
    match written {
        Ok(text) => Some(text@),
        Err(_) => None,
    }
}

/// An object or a failure, as contracts see it.
pub open spec fn object_outcome(r: Result<Object, Failure<String>>) -> Result<
    Entries,
    Failure<Seq<char>>,
> {
    match r {
        Ok(object) => Ok(entries_of(object)),
        Err(failure) => Err(failure@),
    }
}

/// A text or a failure, as contracts see it.
pub open spec fn text_outcome(r: Result<String, Failure<String>>) -> Result<
    Seq<char>,
    Failure<Seq<char>>,
> {
    match r {
        Ok(text) => Ok(text@),
        Err(failure) => Err(failure@),
    }
}

/// The rule on the root of a document: only an object is accepted. A text
/// that is not JSON and a document with another root fail in different ways,
/// and both failures name the file.
pub open spec fn accepted(path: Seq<char>, root: Option<Json>) -> Result<
    Entries,
    Failure<Seq<char>>,
> {
    match root {
        None => Err(Failure::InvalidJson { path }),
        Some(Json::Object(entries)) => Ok(entries),
        Some(_) => Err(Failure::NotAnObject { path }),
    }
}

/// The object that a file holds: none of its entries where the file does not
/// exist, else what its text parses to, if that is an object.
pub open spec fn loaded(path: Seq<char>, content: Option<Seq<char>>) -> Result<
    Entries,
    Failure<Seq<char>>,
> {
    match content {
        None => Ok(Entries::empty()),
        Some(text) => accepted(path, parsed(text)),
    }
}

/// The rule on what the serializer returns: its text, or the failure to
/// serialize.
pub open spec fn serialized(written: Option<Seq<char>>) -> Result<Seq<char>, Failure<Seq<char>>> {
    match written {
        Some(text) => Ok(text),
        None => Err(Failure::Serialize),
    }
}

/// Applies the rule on the root of a document to what the parser returned
/// for the file at `file_path`.
pub fn object_from_root(file_path: &str, root: Result<Value, serde_json::Error>) -> (r: Result<
    Object,
    Failure<String>,
>)
    ensures
        object_outcome(r) == accepted(file_path@, root_of(root)),
{
    match root {
        Err(_) => Err(Failure::InvalidJson { path: file_path.to_owned() }),
        Ok(value) => match into_object(value) {
            Some(object) => Ok(object),
            None => Err(Failure::NotAnObject { path: file_path.to_owned() }),
        },
    }
}

/// Loads the object of the file at `file_path` from the text of the file,
/// `None` standing for a file that does not exist.
pub fn load_json_object(file_path: &str, content: Option<&str>) -> (r: Result<
    Object,
    Failure<String>,
>)
    ensures
        object_outcome(r) == loaded(file_path@, content_of(content)),
{
    match content {
        None => Ok(new_object()),
        Some(text) => object_from_root(file_path, parse_document(text)),
    }
}

/// Turns what the serializer returned into a text or the failure to
/// serialize.
pub fn text_or_failure(written: Result<String, serde_json::Error>) -> (r: Result<
    String,
    Failure<String>,
>)
    ensures
        text_outcome(r) == serialized(written_of(written)),
{
    match written {
        Ok(text) => Ok(text),
        Err(_) => Err(Failure::Serialize),
    }
}

/// The text to store for an object: the object pretty-printed.
pub fn save_json_object(object: &Object) -> (r: Result<String, Failure<String>>)
    ensures
        text_outcome(r) == serialized(pretty_text(entries_of(*object))),
{
    text_or_failure(write_pretty(object))
}

} // verus!
