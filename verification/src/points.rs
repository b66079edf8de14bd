//! A point whose two coordinates may have different types, and a method
//! that mixes two points into one.

use vstd::prelude::*;

verus! {

/// A point with two coordinates, possibly of different types.
pub struct Point<X1, Y1> {
    pub x: X1,
    pub y: Y1,
}

impl<X1, Y1> Point<X1, Y1> {
    /// A point taking its first coordinate from `self` and its second
    /// from `other`.
    pub fn mixup<X2, Y2>(self, other: Point<X2, Y2>) -> (r: Point<X1, Y2>)
        ensures
            r.x == self.x,
            r.y == other.y,
    {
        Point { x: self.x, y: other.y }
    }
}

} // verus!
