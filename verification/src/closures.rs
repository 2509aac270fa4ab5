//! Closures: without parameters, with parameters, and with a block as body.

use vstd::prelude::*;
use vstd::string::*;

verus! {

/// What a closure without parameters yields when it is called.
pub fn test_closures() -> (msg: &'static str)
    ensures
        msg@ == "Hello Rust!"@,
{
    let ret_name = || -> (m: &'static str)
        ensures
            m@ == "Hello Rust!"@,
        { "Hello Rust!" };
    ret_name()
}

/// Two words, then the greeting to Rust.
pub open spec fn hello_rust(x: Seq<char>, y: Seq<char>) -> Seq<char> {
    x + " "@ + y + ", Hello Rust!"@
}

/// What a closure with two parameters yields for the words `Hello` and
/// `World`.
pub fn test_closures_2() -> (msg: String)
    ensures
        msg@ == hello_rust("Hello"@, "World"@),
{
    let ret_name = |x: &str, y: &str| -> (m: String)
        ensures
            m@ == hello_rust(x@, y@),
        { String::from_str(x).concat(" ").concat(y).concat(", Hello Rust!") };
    ret_name("Hello", "World")
}

/// The same as `test_closures_2`, with a closure whose body is a block of
/// several statements.
pub fn test_closures_3() -> (msg: String)
    ensures
        msg@ == hello_rust("Hello"@, "World"@),
{
    let ret_name = |x: &str, y: &str| -> (m: String)
        ensures
            m@ == hello_rust(x@, y@),
        {
            let mut m = String::from_str(x);
            m.append(" ");
            m.append(y);
            m.append(", Hello Rust!");
            m
        };
    ret_name("Hello", "World")
}

} // verus!
