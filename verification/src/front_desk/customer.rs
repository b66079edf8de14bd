//! The customer's view: the same call, reached both relative to this
//! module and from the crate root.

use vstd::prelude::*;

verus! {

/// Puts a party on the waitlist, naming the path in two ways.
pub fn eat_at_restaurant() {
    super::front_of_house::hosting::add_to_waitlist();
    crate::front_desk::front_of_house::hosting::add_to_waitlist();
}

} // verus!
