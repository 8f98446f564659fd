//! Small routines on owned and borrowed strings.
use vstd::prelude::*;
use vstd::string::StringExecFns;
use vstd::utf8::encode_utf8;

verus! {

/// Hands a freshly made `"hello"` to the caller.
pub fn gives_ownership() -> (r: String)
    ensures
        r@ == "hello"@,
{
    let some_string = String::from_str("hello");
    some_string
}

/// Takes a string and gives the same string back.
pub fn takes_and_gives_back(some_string: String) -> (r: String)
    ensures
        r@ == some_string@,
{
    some_string
}

/// The length of `s` in bytes of its UTF-8 encoding.
pub fn calculate_length(s: &String) -> (r: usize)
    ensures
        r == encode_utf8(s@).len() as usize,
{
    let length: usize = s.as_str().len();
    length
}

/// The longer of two strings by byte length; on a tie, the second.
pub fn longest<'a>(x: &'a str, y: &'a str) -> (r: &'a str)
    ensures
        r@ == if x.len() > y.len() { x@ } else { y@ },
{
    if x.len() > y.len() {
        x
    } else {
        y
    }
}

} // verus!
