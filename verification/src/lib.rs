//! A small set of operations offered to a host environment: a greeting, a
//! fixed message, a wrapping sum and a placeholder timestamp.
//!
//! Nothing here keeps state or can fail. Every operation is a function of
//! its arguments alone, and its contract says which: the result equals a
//! mathematical function of the arguments, so calls in any number and order
//! cannot affect each other. The diagnostic line that goes with each call is
//! composed in [`console`]; emitting it is the caller's part.

use vstd::prelude::*;

pub mod console;
pub mod decimal;
pub mod greeting;
pub mod wrapping;

verus! {

/// Builds the greeting for `name`. Any text is accepted and none is altered.
pub fn greet(name: &str) -> (greeting: String)
    ensures
        greeting@ == greeting::greeting_text(name@),
{
    let mut greeting = String::from_str("Hello, ");
    greeting.append(name);
    greeting.append("! This message is from Rust and WebAssembly.");
    greeting
}

/// Returns the fixed hello-world message.
pub fn hello_world() -> (message: String)
    ensures
        message@ == greeting::hello_world_text(),
{
    String::from_str("Hello, World from Rust and WebAssembly!")
}

/// Adds two 32-bit signed integers. Overflow is not an error: the sum wraps
/// around in two's complement.
pub fn add(a: i32, b: i32) -> (sum: i32)
    ensures
        sum == wrapping::wrapped_sum(a as int, b as int),
{
    a.wrapping_add(b)
}

/// Returns the placeholder timestamp: always one thousand million, never a
/// reading of a clock.
pub fn get_timestamp() -> (stamp: u64)
    ensures
        stamp == 1_000_000_000,
{
    1_000_000_000
}

} // verus!
