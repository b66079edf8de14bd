//! Waiting on seated guests.

use vstd::prelude::*;

verus! {

/// Writes down what a table wants; nothing to it yet.
pub fn take_order() {
}

/// Brings a finished order out; nothing to it yet.
pub fn serve_order() {
}

/// Settles a table's bill; nothing to it yet.
pub fn take_payment() {
}

} // verus!
