//! A small greeting library: given a name, it builds the greeting text that a
//! front end shows. The greeting is the fixed preamble, the name verbatim, and
//! the fixed suffix; the operation is total and pure.

use vstd::prelude::*;
use vstd::string::StringExecFns;

verus! {

/// The fixed text that opens every greeting.
pub open spec fn greeting_preamble() -> Seq<char> {
    "Hello, "@
}

/// The fixed text that closes every greeting.
pub open spec fn greeting_suffix() -> Seq<char> {
    "! You've been greeted from Rust!"@
}

/// The greeting owed for a given name: the preamble, the name verbatim, and
/// the suffix, in that order. Every name is accepted, the empty one included.
pub open spec fn greeting_of(name: Seq<char>) -> Seq<char> {
    greeting_preamble() + name + greeting_suffix()
}

/// Builds the greeting for `name`. It cannot fail, takes any text, and the
/// result is fully determined by `name`: the function reads and writes no
/// other state.
pub fn greet(name: &str) -> (r: String)
    ensures
        r@ == greeting_of(name@),
{
    let mut out: String = "Hello, ".to_owned();
    out.append(name);
    out.append("! You've been greeted from Rust!");
    out
}

/// Law: the greeting contains the name as an exact substring, bounded by the
/// fixed preamble on the left and the fixed suffix on the right, and holds
/// nothing else.
pub proof fn lemma_greeting_brackets_name(name: Seq<char>)
    ensures
        greeting_of(name).len() == greeting_preamble().len() + name.len() + greeting_suffix().len(),
        greeting_of(name).subrange(0, greeting_preamble().len() as int) == greeting_preamble(),
        greeting_of(name).subrange(
            greeting_preamble().len() as int,
            (greeting_preamble().len() + name.len()) as int,
        ) == name,
        greeting_of(name).subrange(
            (greeting_preamble().len() + name.len()) as int,
            greeting_of(name).len() as int,
        ) == greeting_suffix(),
{
    assert(greeting_of(name).subrange(0, greeting_preamble().len() as int) =~= greeting_preamble());
    assert(greeting_of(name).subrange(
        greeting_preamble().len() as int,
        (greeting_preamble().len() + name.len()) as int,
    ) =~= name);
    assert(greeting_of(name).subrange(
        (greeting_preamble().len() + name.len()) as int,
        greeting_of(name).len() as int,
    ) =~= greeting_suffix());
}

/// Law: the operation is deterministic. The greeting is a function of the name
/// alone, so identical inputs yield identical outputs.
pub proof fn lemma_greeting_deterministic(a: Seq<char>, b: Seq<char>)
    requires
        a == b,
    ensures
        greeting_of(a) == greeting_of(b),
{
}

} // verus!
