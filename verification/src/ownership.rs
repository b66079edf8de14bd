//! Functions that move values in and out: handing ownership over, handing
//! it back, and returning a value together with a measurement of it.

use vstd::prelude::*;
use vstd::utf8::encode_utf8;

verus! {

/// Hands out ownership of a freshly made string.
pub fn gives_ownership() -> (r: String)
    ensures
        r@ == "yours"@,
{
    String::from_str("yours")
}

/// Takes ownership of a string and hands the very same string back.
pub fn takes_and_gives_back(a_string: String) -> (r: String)
    ensures
        r == a_string,
{
    a_string
}

/// A string together with its length in bytes, so the caller keeps the
/// string it measured.
pub fn calculate_length(s: String) -> (r: (String, usize))
    ensures
        r.0 == s,
        r.1 == encode_utf8(s@).len(),
{
    let length = s.as_str().as_bytes().len();
    (s, length)
}

} // verus!
