//! The texts handed back to the host: the greeting template and the fixed
//! hello-world message.

use vstd::prelude::*;

verus! {

/// What the greeting template puts in front of the name.
pub open spec fn greeting_head() -> Seq<char> {
    "Hello, "@
}

/// What the greeting template puts behind the name.
pub open spec fn greeting_tail() -> Seq<char> {
    "! This message is from Rust and WebAssembly."@
}

/// The greeting for `name`: the template with the name in its one slot,
/// character for character.
pub open spec fn greeting_text(name: Seq<char>) -> Seq<char> {
    greeting_head() + name + greeting_tail()
}

/// The fixed hello-world message.
pub open spec fn hello_world_text() -> Seq<char> {
    "Hello, World from Rust and WebAssembly!"@
}

/// The greeting is as long as the name and the template together, and the
/// name stands in it whole and unchanged, directly behind the seven
/// characters of the head and directly before the tail.
pub proof fn lemma_greeting_holds_name(name: Seq<char>)
    ensures
        greeting_text(name).len() == name.len() + 51,
        greeting_text(name).subrange(0, 7) == greeting_head(),
        greeting_text(name).subrange(7, 7 + name.len() as int) == name,
        greeting_text(name).subrange(7 + name.len() as int, 51 + name.len() as int)
            == greeting_tail(),
{
    reveal_strlit("Hello, ");
    reveal_strlit("! This message is from Rust and WebAssembly.");
}

/// Different names never share a greeting.
pub proof fn lemma_greeting_tells_names_apart(first: Seq<char>, second: Seq<char>)
    requires
        greeting_text(first) == greeting_text(second),
    ensures
        first == second,
{
    lemma_greeting_holds_name(first);
    lemma_greeting_holds_name(second);
}

} // verus!
