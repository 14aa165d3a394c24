//! A friendly greeting.
use vstd::prelude::*;
use vstd::string::StringExecFns;

verus! {

/// The greeting for `name`: `Hello, <name> 🦀 !`.
pub open spec fn greeting(name: Seq<char>) -> Seq<char> {
    "Hello, "@ + name + " \u{1F980} !"@
}

/// Greets `name`.
pub fn greets(name: &str) -> (r: String)
    ensures
        r@ == greeting(name@),
{
    String::from_str("Hello, ").concat(name).concat(" \u{1F980} !")
}

} // verus!
