use vstd::prelude::*;
use vstd::string::StringExecFns;

verus! {

/// The text that `greet` puts before the name.
pub open spec fn greeting_head() -> Seq<char> {
    "Hello, "@
}

/// The text that `greet` puts after the name.
pub open spec fn greeting_tail() -> Seq<char> {
    "! You've been greeted from Rust!"@
}

/// Greets `name`: "Hello, <name>! You've been greeted from Rust!".
pub fn greet(name: &str) -> (r: String)
    ensures
        r@ == greeting_head() + name@ + greeting_tail(),
{
    let mut r = String::from_str("Hello, ");
    r.append(name);
    r.append("! You've been greeted from Rust!");
    r
}

} // verus!
