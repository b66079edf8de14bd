//! Small arithmetic and validation helpers: an adder, a fixed greeting, a
//! guess wrapper that only admits values from 1 to 100, and a rectangle
//! containment check.

use vstd::prelude::*;

verus! {

/// Adds two to its argument.
pub fn add_two(a: i32) -> (r: i32)
    requires
        a + 2 <= i32::MAX,
    ensures
        r == a + 2,
{
    a + 2
}

/// Returns a fixed greeting.
pub fn greeting(name: &str) -> (r: String)
    ensures
        r@ == "Hello!"@,
{
    String::from_str("Hello!")
}

/// A guess at a secret number; only values from 1 to 100 are admitted.
pub struct Guess {
    value: i32,
}

impl Guess {
    /// The wrapped value.
    pub closed spec fn spec_value(&self) -> i32 {
        self.value
    }

    /// Wraps a value, which must lie between 1 and 100 inclusive.
    pub fn new(value: i32) -> (r: Guess)
        requires
            1 <= value <= 100,
        ensures
            r.spec_value() == value,
    {
        Guess { value }
    }
}

/// An axis-aligned rectangle, measured in whole pixels.
pub struct Rectangle {
    pub width: u32,
    pub height: u32,
}

impl Rectangle {
    /// Whether `other` fits strictly inside `self` in both dimensions.
    pub fn can_hold(&self, other: &Rectangle) -> (r: bool)
        ensures
            r == (self.width > other.width && self.height > other.height),
    {
        self.width > other.width && self.height > other.height
    }
}

} // verus!
