//! The `greet` command: a greeting formed around a caller's name.
use vstd::prelude::*;
use vstd::string::StringExecFns;

verus! {

/// The greeting for `name`: `"Hello, "`, then `name` unchanged, then `"!"`.
pub open spec fn greeting_of(name: Seq<char>) -> Seq<char> {
    "Hello, "@ + name + "!"@
}

/// Forms the greeting for `name`. Any text is accepted, the empty one and
/// non-ASCII ones included; nothing is escaped or checked.
pub fn greet(name: &str) -> (r: String)
    ensures
        r@ == greeting_of(name@),
{
    let mut r = "Hello, ".to_owned();
    r.append(name);
    r.append("!");
    r
}

/// Greeting twice with the same name gives the same text both times: the
/// result depends on the name alone, and `greet` holds no state to change.
pub proof fn lemma_greet_repeatable(name: Seq<char>, first: Seq<char>, second: Seq<char>)
    requires
        first == greeting_of(name),
        second == greeting_of(name),
    ensures
        first == second,
{
}

} // verus!
