//! Slicing a string at a natural boundary: the first word runs up to the
//! first space, or to the end when there is none.

use crate::seqs::{find_char, lemma_find_char_is};
use vstd::prelude::*;

verus! {

/// The first word of `s`: everything before the first space, or all of
/// `s` when it holds no space.
pub fn first_word<'a>(s: &'a str) -> (r: &'a str)
    ensures
        r@ == s@.subrange(0, find_char(s@, ' ') as int),
{
    let n = s.unicode_len();
    let mut i: usize = 0;
    while i < n
        invariant
            i <= n,
            n == s@.len(),
            forall|k: int| 0 <= k < i ==> s@[k] != ' ',
        decreases n - i,
    {
        if s.get_char(i) == ' ' {
            proof {
                lemma_find_char_is(s@, ' ', i as int);
            }
            return s.substring_char(0, i);
        }
        i = i + 1;
    }
    proof {
        lemma_find_char_is(s@, ' ', n as int);
        assert(s@.subrange(0, n as int) =~= s@);
    }
    s
}

} // verus!
