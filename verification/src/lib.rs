//! A four-function calculator core: an error taxonomy, a memory register and
//! the display state machine behind a calculator keypad.
//!
//! Numbers are IEEE-754 binary64 values held by their bit patterns. The
//! library classifies them and decides every state transition; the arithmetic
//! itself, and the conversion between numbers and text, is asked of the host
//! through [`numeric::Request`] and comes back as a [`numeric::Reply`].

use vstd::prelude::*;
use vstd::string::StringExecFns;

pub mod text;
pub mod errors;
pub mod number;
pub mod numeric;
pub mod calculator;
pub mod state;

verus! {

/// Returns a friendly greeting for `name`.
pub fn hello(name: &str) -> (greeting: String)
    ensures
        greeting@ == "Hello, "@ + name@ + "!"@,
{
    let mut greeting = String::from_str("Hello, ");
    greeting.append(name);
    greeting.append("!");
    greeting
}

} // verus!
