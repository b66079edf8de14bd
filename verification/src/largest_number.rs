//! Finding the largest number in a nonempty list.

use vstd::prelude::*;

verus! {

/// The largest element of a nonempty list of numbers: it occurs in the
/// list, and no element exceeds it.
pub fn largest(list: &Vec<i32>) -> (r: i32)
    requires
        list@.len() > 0,
    ensures
        exists|j: int| 0 <= j < list@.len() && list@[j] == r,
        forall|k: int| 0 <= k < list@.len() ==> list@[k] <= r,
{
    let mut best = list[0];
    let mut i: usize = 1;
    while i < list.len()
        invariant
            1 <= i <= list@.len(),
            exists|j: int| 0 <= j < i && list@[j] == best,
            forall|k: int| 0 <= k < i ==> list@[k] <= best,
        decreases list@.len() - i,
    {
        if list[i] > best {
            best = list[i];
        }
        i = i + 1;
    }
    best
}

} // verus!
