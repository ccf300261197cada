//! One invocation from end to end: the operation string decides between a
//! lookup and an assignment, and the outcome says what the caller is to do.

use crate::access::{get_outcome, get_value, set_outcome, set_value};
use crate::failure::Failure;
use crate::operation::{parse_operation, split_operation, Operation};
use crate::store::content_of;
use vstd::prelude::*;

verus! {

/// What the caller is to do after a successful invocation. `S` is the type
/// of its texts: `String` in executable code, `Seq<char>` in contracts.
#[derive(Debug, PartialEq, Eq)]
pub enum Effect<S> {
    /// Print `text` on a line of its own. The file stays as it is.
    Print { text: S },
    /// Replace the text of the file by `content`.
    Write { content: S },
}

impl View for Effect<String> {
    type V = Effect<Seq<char>>;

    open spec fn view(&self) -> Effect<Seq<char>> {
        match *self {
            Effect::Print { text } => Effect::Print { text: text@ },
            Effect::Write { content } => Effect::Write { content: content@ },
        }
    }
}

/// An effect or a failure, as contracts see it.
pub open spec fn effect_outcome(r: Result<Effect<String>, Failure<String>>) -> Result<
    Effect<Seq<char>>,
    Failure<Seq<char>>,
> {
    match r {
        Ok(effect) => Ok(effect@),
        Err(failure) => Err(failure@),
    }
}

/// What an invocation yields. A lookup prints what it found and leaves the
/// file alone; an assignment rewrites the file and prints nothing.
pub open spec fn run_outcome(
    path: Seq<char>,
    operation: Seq<char>,
    content: Option<Seq<char>>,
) -> Result<Effect<Seq<char>>, Failure<Seq<char>>> {
    match split_operation(operation) {
        Operation::Lookup { key } => match get_outcome(path, content, key) {
            Ok(text) => Ok(Effect::Print { text }),
            Err(failure) => Err(failure),
        },
        Operation::Assign { key, value } => match set_outcome(path, content, key, value) {
            Ok(content) => Ok(Effect::Write { content }),
            Err(failure) => Err(failure),
        },
    }
}

/// Runs one invocation on the file at `file_path`, given the operation
/// string and the text of the file (`None` where the file does not exist).
pub fn run(file_path: &str, operation: &str, content: Option<&str>) -> (r: Result<
    Effect<String>,
    Failure<String>,
>)
    ensures
        effect_outcome(r) == run_outcome(file_path@, operation@, content_of(content)),
{
    match parse_operation(operation) {
        Operation::Lookup { key } => match get_value(file_path, content, key.as_str()) {
            Ok(text) => Ok(Effect::Print { text }),
            Err(failure) => Err(failure),
        },
        Operation::Assign { key, value } => match set_value(
            file_path,
            content,
            key.as_str(),
            value.as_str(),
        ) {
            Ok(content) => Ok(Effect::Write { content }),
            Err(failure) => Err(failure),
        },
    }
}

} // verus!
