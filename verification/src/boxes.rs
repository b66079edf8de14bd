//! A one-field wrapper around a value of any type.

use vstd::prelude::*;

verus! {

/// A value held in a one-field wrapper.
pub struct MyBox<T>(pub T);

impl<T> MyBox<T> {
    /// Wraps a value.
    pub fn new(x: T) -> (r: MyBox<T>)
        ensures
            r.0 == x,
    {
        MyBox(x)
    }
}

} // verus!
