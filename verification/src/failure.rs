//! The ways in which an invocation can fail, and the one-line message that
//! is shown for each.

use vstd::prelude::*;
use vstd::string::*;

verus! {

/// Why an invocation failed. `S` is the type of the texts that a failure
/// names: `String` in executable code, `Seq<char>` in contracts.
#[derive(Debug, PartialEq, Eq)]
pub enum Failure<S> {
    /// The file exists but could not be read.
    ReadFailed { path: S },
    /// The text of the file is not JSON.
    InvalidJson { path: S },
    /// The text of the file is JSON, but its root is not an object.
    NotAnObject { path: S },
    /// The object has no entry under the key that was asked for.
    KeyNotFound { key: S },
    /// A document could not be written out as text.
    Serialize,
    /// The file could not be written.
    WriteFailed { path: S },
}

impl View for Failure<String> {
    type V = Failure<Seq<char>>;

    open spec fn view(&self) -> Failure<Seq<char>> {
        match *self {
            Failure::ReadFailed { path } => Failure::ReadFailed { path: path@ },
            Failure::InvalidJson { path } => Failure::InvalidJson { path: path@ },
            Failure::NotAnObject { path } => Failure::NotAnObject { path: path@ },
            Failure::KeyNotFound { key } => Failure::KeyNotFound { key: key@ },
            Failure::Serialize => Failure::Serialize,
            Failure::WriteFailed { path } => Failure::WriteFailed { path: path@ },
        }
    }
}

impl Failure<Seq<char>> {
    /// The message for a failure: a fixed phrase, followed by the file or the
    /// key that the failure names.
    pub open spec fn text(self) -> Seq<char> {
        match self {
            Failure::ReadFailed { path } => "Failed to read file: "@ + path,
            Failure::InvalidJson { path } => "File contains invalid JSON: "@ + path,
            Failure::NotAnObject { path } => "File does not contain a JSON object (dictionary): "@
                + path,
            Failure::KeyNotFound { key } => "Key not found: "@ + key,
            Failure::Serialize => "Failed to serialize JSON"@,
            Failure::WriteFailed { path } => "Failed to write to file: "@ + path,
        }
    }
}

impl Failure<String> {
    /// The message that is shown for this failure.
    pub fn message(&self) -> (text: String)
        ensures
            text@ == self@.text(),
    {
        match self {
            Failure::ReadFailed { path } => String::from_str("Failed to read file: ").concat(
                path.as_str(),
            ),
            Failure::InvalidJson { path } => String::from_str(
                "File contains invalid JSON: ",
            ).concat(path.as_str()),
            Failure::NotAnObject { path } => String::from_str(
                "File does not contain a JSON object (dictionary): ",
            ).concat(path.as_str()),
            Failure::KeyNotFound { key } => String::from_str("Key not found: ").concat(
                key.as_str(),
            ),
            Failure::Serialize => String::from_str("Failed to serialize JSON"),
            Failure::WriteFailed { path } => String::from_str("Failed to write to file: ").concat(
                path.as_str(),
            ),
        }
    }
}

} // verus!
