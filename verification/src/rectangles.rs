//! The area of a rectangle, computed by a free function over a plain
//! struct.

use vstd::prelude::*;

verus! {

/// An axis-aligned rectangle, measured in whole pixels.
#[derive(Clone, Copy, Debug)]
pub struct Rectangle {
    pub width: u32,
    pub height: u32,
}

/// The rectangle's area, which must fit the result type.
pub fn area(rectangle: &Rectangle) -> (r: u32)
    requires
        rectangle.width * rectangle.height <= u32::MAX,
    ensures
        r == rectangle.width * rectangle.height,
{
    rectangle.width * rectangle.height
}

} // verus!
