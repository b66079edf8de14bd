//! Finding the largest element of a list whose element type only promises
//! an order, plus a simple two-field pair.

use core::cmp::Ordering;
use vstd::prelude::*;
use vstd::std_specs::cmp::PartialOrdSpec;

verus! {

/// The element a left-to-right scan with `>` settles on: each element
/// replaces the best seen so far exactly when it compares greater.
pub open spec fn spec_largest<T: PartialOrd>(list: Seq<T>) -> T
    recommends
        list.len() > 0,
    decreases list.len(),
{
    if list.len() <= 1 {
        list[0]
    } else {
        let prev = spec_largest(list.drop_last());
        if list.last().partial_cmp_spec(&prev) == Some(Ordering::Greater) {
            list.last()
        } else {
            prev
        }
    }
}

/// The largest element of a nonempty list, as a left-to-right scan with
/// `>` finds it. The element type's comparison must obey its
/// specification.
pub fn largest<T: PartialOrd + Copy>(list: &Vec<T>) -> (r: T)
    requires
        list@.len() > 0,
        T::obeys_partial_cmp_spec(),
    ensures
        r == spec_largest(list@),
{
    let mut best: T = list[0];
    let mut i: usize = 1;
    proof {
        assert(list@.subrange(0, 1) =~= seq![list@[0]]);
    }
    while i < list.len()
        invariant
            1 <= i <= list@.len(),
            T::obeys_partial_cmp_spec(),
            best == spec_largest(list@.subrange(0, i as int)),
        decreases list@.len() - i,
    {
        let item = list[i];
        if item > best {
            best = item;
        }
        proof {
            let ext = list@.subrange(0, i as int + 1);
            assert(ext.drop_last() =~= list@.subrange(0, i as int));
            assert(ext.last() == list@[i as int]);
        }
        i = i + 1;
    }
    proof {
        assert(list@.subrange(0, list@.len() as int) =~= list@);
    }
    best
}

/// A pair of two values of one type.
pub struct Pair<T> {
    pub x: T,
    pub y: T,
}

impl<T> Pair<T> {
    /// A pair of the two given values.
    pub fn new(x: T, y: T) -> (r: Self)
        ensures
            r.x == x,
            r.y == y,
    {
        Self { x, y }
    }
}

} // verus!
