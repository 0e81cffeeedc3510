//! The greeting command: formats a fixed salutation around a caller-supplied
//! name. A total function; it cannot fail.

use vstd::prelude::*;
use vstd::string::StringExecFns;

verus! {

/// Returns `"Hello, <name>! You've been greeted from Rust!"`, the name
/// inserted exactly as given.
pub fn greet(name: &str) -> (r: String)
    ensures
        r@ == "Hello, "@ + name@ + "! You've been greeted from Rust!"@,
{
    let mut r = String::new();
    r.append("Hello, ");
    r.append(name);
    r.append("! You've been greeted from Rust!");
    proof {
        assert(r@ =~= "Hello, "@ + name@ + "! You've been greeted from Rust!"@);
    }
    r
}

} // verus!
