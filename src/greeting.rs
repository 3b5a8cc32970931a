use vstd::prelude::*;
use vstd::string::StringExecFns;

verus! {

/// The text that follows the name in a greeting.
pub open spec fn greeting_tail() -> Seq<char> {
    "! You've been greeted from Rust!"@
}

/// The greeting for `name`: the name is put in verbatim, without any escaping.
pub open spec fn greeting_of(name: Seq<char>) -> Seq<char> {
    "Hello, "@ + name + greeting_tail()
}

/// Greets `name` on behalf of the native side of the application.
pub fn greet(name: &str) -> (r: String)
    ensures
        r@ == greeting_of(name@),
{
    let head = String::from_str("Hello, ");
    let with_name = head.concat(name);
    with_name.concat("! You've been greeted from Rust!")
}

} // verus!
