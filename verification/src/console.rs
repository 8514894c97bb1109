//! The diagnostic lines that accompany the operations. Each line is a text
//! for the host's console; sending it there is left to the caller.

use vstd::prelude::*;
use crate::decimal::{decimal, write_i32};
use crate::greeting::greeting_text;
use crate::wrapping::wrapped_sum;

verus! {

/// The line for a greeting of `name`: a fixed label, then the whole greeting.
pub open spec fn greet_line_text(name: Seq<char>) -> Seq<char> {
    "Greeting generated: "@ + greeting_text(name)
}

/// The line for the hello-world message, which does not quote the message.
pub open spec fn hello_world_line_text() -> Seq<char> {
    "Hello world function called"@
}

/// The line for the sum of `a` and `b`: both operands and the wrapped sum,
/// each in decimal notation.
pub open spec fn add_line_text(a: int, b: int) -> Seq<char> {
    "Adding "@ + decimal(a) + " + "@ + decimal(b) + " = "@ + decimal(wrapped_sum(a, b))
}

/// The line that marks the start of the module.
pub open spec fn startup_line_text() -> Seq<char> {
    "Hello from Rust and WebAssembly!"@
}

/// Composes the line for a call of [`crate::greet`] with `name`.
pub fn greet_line(name: &str) -> (line: String)
    ensures
        line@ == greet_line_text(name@),
{
    let greeting = crate::greet(name);
    let mut line = String::from_str("Greeting generated: ");
    line.append(greeting.as_str());
    line
}

/// Gives the line for a call of [`crate::hello_world`].
pub fn hello_world_line() -> (line: &'static str)
    ensures
        line@ == hello_world_line_text(),
{
    "Hello world function called"
}

/// Composes the line for a call of [`crate::add`] with `a` and `b`.
pub fn add_line(a: i32, b: i32) -> (line: String)
    ensures
        line@ == add_line_text(a as int, b as int),
{
    let sum = crate::add(a, b);
    let mut line = String::from_str("Adding ");
    line.append(write_i32(a).as_str());
    line.append(" + ");
    line.append(write_i32(b).as_str());
    line.append(" = ");
    line.append(write_i32(sum).as_str());
    line
}

/// Gives the line to emit once, when the host has loaded the module.
pub fn startup_line() -> (line: &'static str)
    ensures
        line@ == startup_line_text(),
{
    "Hello from Rust and WebAssembly!"
}

} // verus!
