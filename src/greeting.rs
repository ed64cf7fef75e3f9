//! The greeting command.

use vstd::prelude::*;
use vstd::string::StringExecFns;

verus! {

/// What the greeting puts before the name.
pub const GREETING_OPENING: &'static str = "Hello, ";

/// What the greeting puts after the name.
pub const GREETING_CLOSING: &'static str = "! You've been greeted from Rust!";

/// Greets `name`: the opening, the name, then the closing.
pub fn greet(name: &str) -> (r: String)
    ensures
        r@ == GREETING_OPENING@ + name@ + GREETING_CLOSING@,
{
    String::from_str(GREETING_OPENING).concat(name).concat(GREETING_CLOSING)
}

} // verus!
