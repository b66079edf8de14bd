//! Helper definitions and lemmas about sequences: the position of the
//! first occurrence of a character, and how a filtered prefix grows.

use vstd::prelude::*;

verus! {

/// Index of the first occurrence of `c` in `text`, or `text.len()` if
/// there is none.
pub open spec fn find_char(text: Seq<char>, c: char) -> nat
    decreases text.len(),
{
    if text.len() == 0 {
        0
    } else if text[0] == c {
        0
    } else {
        (1 + find_char(text.drop_first(), c)) as nat
    }
}

/// If nothing before `k` is `c`, and `k` holds `c` or is the end, then
/// `k` is where `find_char` points.
pub proof fn lemma_find_char_is(text: Seq<char>, c: char, k: int)
    requires
        0 <= k <= text.len(),
        forall|j: int| 0 <= j < k ==> text[j] != c,
        k < text.len() ==> text[k] == c,
    ensures
        find_char(text, c) == k,
    decreases text.len(),
{
    if text.len() == 0 {
    } else if text[0] == c {
        assert(k == 0);
    } else {
        assert(k >= 1);
        let rest = text.drop_first();
        assert forall|j: int| 0 <= j < k - 1 implies rest[j] != c by {
            assert(rest[j] == text[j + 1]);
        }
        if k - 1 < rest.len() {
            assert(rest[k - 1] == text[k]);
        }
        lemma_find_char_is(rest, c, k - 1);
    }
}

/// Taking one more element extends a filtered prefix by that element
/// exactly when it passes the test.
pub proof fn lemma_filter_grow<A>(s: Seq<A>, pred: spec_fn(A) -> bool, i: int)
    requires
        0 <= i < s.len(),
    ensures
        s.subrange(0, i + 1).filter(pred) == if pred(s[i]) {
            s.subrange(0, i).filter(pred).push(s[i])
        } else {
            s.subrange(0, i).filter(pred)
        },
{
    reveal(Seq::filter);
    let ext = s.subrange(0, i + 1);
    assert(ext.drop_last() =~= s.subrange(0, i));
    assert(ext.last() == s[i]);
}

} // verus!
