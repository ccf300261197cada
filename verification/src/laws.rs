//! What holds of lookups and assignments taken together. Each law is stated
//! over the outcomes that the contracts of the library speak of, and proved.
//!
//! Two laws follow an assignment into the next invocation, which reads the
//! file that the first one wrote. They hold where the written text reads
//! back as the object it was written for ([`reads_back`]). `serde_json` does
//! not promise that: it reads a number with many digits only to the nearest
//! few values, so a number may come back changed.

use crate::access::{assigned, get_outcome, looked_up, set_outcome};
use crate::dispatch::{run_outcome, Effect};
use crate::failure::Failure;
use crate::json::{compact_text, parsed, pretty_text, Entries, Json};
use crate::operation::{split_operation, Operation};
use crate::store::{loaded, serialized};
use vstd::prelude::*;

verus! {

/// The text written for `entries` parses to an object with just these
/// entries.
pub open spec fn reads_back(entries: Entries) -> bool {
    pretty_text(entries) matches Some(text) ==> parsed(text) == Some(Json::Object(entries))
}

/// After a value was stored under a key, a lookup of that key finds the JSON
/// string with the characters of the value, whatever the key held before.
pub proof fn law_lookup_finds_assigned(entries: Entries, key: Seq<char>, value: Seq<char>)
    ensures
        assigned(entries, key, value).contains_key(key),
        assigned(entries, key, value)[key] == Json::String(value),
        looked_up(assigned(entries, key, value), key) == serialized(
            compact_text(Json::String(value)),
        ),
{
}

/// An assignment leaves every other key as it was: a lookup of another key
/// yields what it yielded before.
pub proof fn law_assignment_keeps_other_keys(
    entries: Entries,
    key: Seq<char>,
    value: Seq<char>,
    other: Seq<char>,
)
    requires
        other != key,
    ensures
        looked_up(assigned(entries, key, value), other) == looked_up(entries, other),
{
}

/// Where an assignment has rewritten the file and the text reads back, a
/// lookup of the same key in the new file prints the JSON string with the
/// characters of the value.
pub proof fn law_get_after_set(
    path: Seq<char>,
    content: Option<Seq<char>>,
    key: Seq<char>,
    value: Seq<char>,
    written: Seq<char>,
)
    requires
        set_outcome(path, content, key, value) == Ok::<Seq<char>, Failure<Seq<char>>>(written),
        reads_back(assigned(loaded(path, content)->Ok_0, key, value)),
    ensures
        get_outcome(path, Some(written), key) == serialized(compact_text(Json::String(value))),
{
}

/// A lookup in a file that does not exist fails, and the failure names the
/// key.
pub proof fn law_get_in_missing_file(path: Seq<char>, key: Seq<char>)
    ensures
        get_outcome(path, None, key) == Err::<Seq<char>, Failure<Seq<char>>>(
            Failure::KeyNotFound { key },
        ),
{
}

/// A lookup of a key that the object of the file does not hold fails, and
/// the failure names the key.
pub proof fn law_get_of_absent_key(path: Seq<char>, content: Option<Seq<char>>, key: Seq<char>)
    requires
        loaded(path, content) is Ok,
        !loaded(path, content)->Ok_0.contains_key(key),
    ensures
        get_outcome(path, content, key) == Err::<Seq<char>, Failure<Seq<char>>>(
            Failure::KeyNotFound { key },
        ),
{
}

/// An assignment in a file that does not exist writes an object that holds
/// the assigned key and no other.
pub proof fn law_set_in_missing_file(path: Seq<char>, key: Seq<char>, value: Seq<char>)
    ensures
        set_outcome(path, None, key, value) == serialized(
            pretty_text(assigned(Entries::empty(), key, value)),
        ),
        assigned(Entries::empty(), key, value).dom() == Set::<Seq<char>>::empty().insert(key),
        assigned(Entries::empty(), key, value)[key] == Json::String(value),
{
    assert(assigned(Entries::empty(), key, value).dom() =~= Set::<Seq<char>>::empty().insert(key));
}

/// Where the root of the file is JSON but not an object, every invocation
/// fails, lookup and assignment alike, and nothing is printed or written.
pub proof fn law_root_must_be_object(
    path: Seq<char>,
    text: Seq<char>,
    key: Seq<char>,
    value: Seq<char>,
    operation: Seq<char>,
)
    requires
        parsed(text) is Some,
        !(parsed(text)->Some_0 is Object),
    ensures
        get_outcome(path, Some(text), key) == Err::<Seq<char>, Failure<Seq<char>>>(
            Failure::NotAnObject { path },
        ),
        set_outcome(path, Some(text), key, value) == Err::<Seq<char>, Failure<Seq<char>>>(
            Failure::NotAnObject { path },
        ),
        run_outcome(path, operation, Some(text)) == Err::<Effect<Seq<char>>, Failure<Seq<char>>>(
            Failure::NotAnObject { path },
        ),
{
}

/// Where the text of the file is not JSON at all, every invocation fails
/// likewise.
pub proof fn law_text_must_be_json(
    path: Seq<char>,
    text: Seq<char>,
    operation: Seq<char>,
)
    requires
        parsed(text) is None,
    ensures
        run_outcome(path, operation, Some(text)) == Err::<Effect<Seq<char>>, Failure<Seq<char>>>(
            Failure::InvalidJson { path },
        ),
{
}

/// Storing the same value under the same key a second time changes nothing:
/// the object stays as the first assignment left it, and so does the text
/// that is written for it.
pub proof fn law_assignment_is_idempotent(entries: Entries, key: Seq<char>, value: Seq<char>)
    ensures
        assigned(assigned(entries, key, value), key, value) == assigned(entries, key, value),
        pretty_text(assigned(assigned(entries, key, value), key, value)) == pretty_text(
            assigned(entries, key, value),
        ),
{
    assert(assigned(assigned(entries, key, value), key, value) =~= assigned(entries, key, value));
}

/// Where an assignment has rewritten the file and the text reads back, the
/// same assignment on the new file writes the same text again.
pub proof fn law_set_twice_writes_same_text(
    path: Seq<char>,
    content: Option<Seq<char>>,
    key: Seq<char>,
    value: Seq<char>,
    written: Seq<char>,
)
    requires
        set_outcome(path, content, key, value) == Ok::<Seq<char>, Failure<Seq<char>>>(written),
        reads_back(assigned(loaded(path, content)->Ok_0, key, value)),
    ensures
        set_outcome(path, Some(written), key, value) == Ok::<Seq<char>, Failure<Seq<char>>>(
            written,
        ),
{
    let entries = loaded(path, content)->Ok_0;
    law_assignment_is_idempotent(entries, key, value);
}

/// An operation string without `=` is a lookup of the whole string, whatever
/// the file holds: the invocation prints or fails as that lookup does, and
/// never writes.
pub proof fn law_without_equals_is_lookup(
    path: Seq<char>,
    operation: Seq<char>,
    content: Option<Seq<char>>,
)
    requires
        !operation.contains('='),
    ensures
        split_operation(operation) == (Operation::Lookup { key: operation }),
        run_outcome(path, operation, content) == match get_outcome(path, content, operation) {
            Ok(text) => Ok(Effect::Print { text }),
            Err(failure) => Err(failure),
        },
        !(run_outcome(path, operation, content) matches Ok(Effect::Write { .. })),
{
}

} // verus!
