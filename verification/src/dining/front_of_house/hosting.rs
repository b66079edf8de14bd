//! Greeting and seating guests.

use vstd::prelude::*;

verus! {

/// Puts a party on the waitlist; nothing to it yet.
pub fn add_to_waitlist() {
}

} // verus!
