//! A wrapper type that carries its validity with it: a guess can only be
//! built from a value between 1 and 100, so every holder of one may rely
//! on that range without checking again.

use vstd::prelude::*;

verus! {

/// A guess at a number between 1 and 100 inclusive.
pub struct Guess {
    value: i32,
}

impl Guess {
    /// Every guess in existence holds a value between 1 and 100.
    #[verifier::type_invariant]
    spec fn inv(&self) -> bool {
        1 <= self.value <= 100
    }

    /// The wrapped value.
    pub closed spec fn spec_value(&self) -> i32 {
        self.value
    }

    /// Wraps a value, which must lie between 1 and 100 inclusive.
    pub fn new(value: i32) -> (r: Guess)
        requires
            1 <= value <= 100,
        ensures
            r.spec_value() == value,
    {
        Guess { value }
    }

    /// The wrapped value, always between 1 and 100.
    pub fn value(&self) -> (r: i32)
        ensures
            r == self.spec_value(),
            1 <= r <= 100,
    {
        proof {
            use_type_invariant(&self);
        }
        self.value
    }
}

} // verus!
