//! The operation string of an invocation: `key` looks a key up, `key=value`
//! assigns to it. The first `=` separates key and value; there is no way to
//! write a key that holds one.

use vstd::prelude::*;
use vstd::std_specs::iter::IteratorSpec;
use vstd::string::*;

verus! {

/// What an invocation asks for. `S` is the type of its texts: `String` in
/// executable code, `Seq<char>` in contracts.
#[derive(Debug, PartialEq, Eq)]
pub enum Operation<S> {
    /// Look up the value under `key`.
    Lookup { key: S },
    /// Store the string `value` under `key`.
    Assign { key: S, value: S },
}

impl View for Operation<String> {
    type V = Operation<Seq<char>>;

    open spec fn view(&self) -> Operation<Seq<char>> {
        match *self {
            Operation::Lookup { key } => Operation::Lookup { key: key@ },
            Operation::Assign { key, value } => Operation::Assign { key: key@, value: value@ },
        }
    }
}

/// `at` is the position of the first `=` in `text`.
pub open spec fn first_equals_at(text: Seq<char>, at: int) -> bool {
    &&& 0 <= at < text.len()
    &&& text[at] == '='
    &&& forall|i: int| 0 <= i < at ==> text[i] != '='
}

/// The operation that a text stands for. A text with a `=` assigns: the key
/// is what precedes the first `=`, the value is all that follows it, further
/// `=` included. A text without `=` is a lookup of the whole text.
pub open spec fn split_operation(text: Seq<char>) -> Operation<Seq<char>> {
    if text.contains('=') {
        let at = choose|at: int| first_equals_at(text, at);
        Operation::Assign { key: text.subrange(0, at), value: text.subrange(at + 1, text.len() as int) }
    } else {
        Operation::Lookup { key: text }
    }
}

/// A text that holds a `=` has a first one.
pub proof fn lemma_first_equals_exists(text: Seq<char>, any: int)
    requires
        0 <= any < text.len(),
        text[any] == '=',
    ensures
        exists|at: int| first_equals_at(text, at),
    decreases any,
{
    if exists|i: int| 0 <= i < any && text[i] == '=' {
        let earlier = choose|i: int| 0 <= i < any && text[i] == '=';
        lemma_first_equals_exists(text, earlier);
    } else {
        assert(first_equals_at(text, any));
    }
}

/// A text has at most one first `=`.
pub proof fn lemma_first_equals_unique(text: Seq<char>, at: int, other: int)
    requires
        first_equals_at(text, at),
        first_equals_at(text, other),
    ensures
        at == other,
{
    if at < other {
        assert(text[at] != '=');
    } else if other < at {
        assert(text[other] != '=');
    }
}

/// A text with a `=` splits into a key without `=` and a value, and the key,
/// a `=` and the value make up the text again.
pub proof fn law_split_parts_rejoin(text: Seq<char>)
    requires
        text.contains('='),
    ensures
        split_operation(text) matches Operation::Assign { key, value } && !key.contains('=')
            && text == key + seq!['='] + value,
{
    let first = choose|i: int| 0 <= i < text.len() && text[i] == '=';
    lemma_first_equals_exists(text, first);
    let at = choose|at: int| first_equals_at(text, at);
    let key = text.subrange(0, at);
    let value = text.subrange(at + 1, text.len() as int);
    if key.contains('=') {
        let i = choose|i: int| 0 <= i < key.len() && key[i] == '=';
        assert(text[i] == key[i]);
    }
    assert(text =~= key + seq!['='] + value);
}

/// A key without `=`, a `=` and a value, put together, split into that key
/// and that value: the first `=` decides, also where the value holds more.
pub proof fn law_split_of_joined(key: Seq<char>, value: Seq<char>)
    requires
        !key.contains('='),
    ensures
        split_operation(key + seq!['='] + value) == (Operation::Assign { key, value }),
{
    let text = key + seq!['='] + value;
    let at = key.len() as int;
    assert(text[at] == '=');
    assert forall|i: int| 0 <= i < at implies text[i] != '=' by {
        assert(text[i] == key[i]);
    }
    assert(first_equals_at(text, at));
    let chosen = choose|c: int| first_equals_at(text, c);
    lemma_first_equals_unique(text, at, chosen);
    assert(text.subrange(0, at) =~= key);
    assert(text.subrange(at + 1, text.len() as int) =~= value);
}

/// Splits an operation string at its first `=`.
pub fn parse_operation(text: &str) -> (r: Operation<String>)
    ensures
        r@ == split_operation(text@),
{
    let n = text.unicode_len();
    let mut rest = text.chars();
    let mut at: usize = 0;
    loop
        invariant
            n == text@.len(),
            at <= n,
            rest.obeys_prophetic_iter_laws(),
            rest.remaining() == text@.skip(at as int),
            forall|i: int| 0 <= i < at ==> text@[i] != '=',
        ensures
            at == n,
        decreases n - at,
    {
        broadcast use vstd::string::next_postcondition;
        match rest.next() {
            None => {
                break;
            },
            Some(c) => {
                if c == '=' {
                    let key = text.substring_char(0, at).to_owned();
                    let value = text.substring_char(at + 1, n).to_owned();
                    proof {
                        assert(first_equals_at(text@, at as int));
                        let chosen = choose|c: int| first_equals_at(text@, c);
                        lemma_first_equals_unique(text@, at as int, chosen);
                    }
                    return Operation::Assign { key, value };
                }
                at += 1;
            },
        }
    }
    Operation::Lookup { key: text.to_owned() }
}

} // verus!
