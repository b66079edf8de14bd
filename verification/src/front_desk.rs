//! Bringing a nested path into scope with `use`, so that calls can go
//! through the short name.

pub mod customer;
mod front_of_house;

use self::front_of_house::hosting;
use vstd::prelude::*;

verus! {

/// Puts a party on the waitlist, through the shortened path.
pub fn eat_at_restaurant() {
    hosting::add_to_waitlist();
}

} // verus!
