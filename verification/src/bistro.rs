//! A module extracted to a file of its own, with its hosting submodule
//! re-exported for callers.

mod front_of_house;

pub use front_of_house::hosting;

use vstd::prelude::*;

verus! {

/// Puts a party on the waitlist, through the re-exported module.
pub fn eat_at_restaurant() {
    hosting::add_to_waitlist();
}

} // verus!
