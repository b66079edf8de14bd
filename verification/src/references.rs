//! Borrowing instead of moving: measuring a string through a shared
//! reference, and growing one through a mutable reference.

use vstd::prelude::*;
use vstd::utf8::encode_utf8;

verus! {

/// The length in bytes of a borrowed string.
pub fn calculate_length(s: &String) -> (r: usize)
    ensures
        r == encode_utf8(s@).len(),
{
    s.as_str().as_bytes().len()
}

/// Appends ", world" to the string in place.
pub fn change(some_string: &mut String)
    ensures
        final(some_string)@ == old(some_string)@ + ", world"@,
{
    some_string.append(", world");
}

} // verus!
