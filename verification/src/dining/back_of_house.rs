//! The kitchen's side: breakfasts whose fruit the kitchen picks, and the
//! starters on offer.

use vstd::prelude::*;

verus! {

/// A breakfast order: the customer picks the toast, the kitchen keeps
/// the choice of seasonal fruit to itself.
pub struct Breakfast {
    toast: String,
    seasonal_fruit: String,
}

impl Breakfast {
    /// The toast the customer picked.
    pub closed spec fn spec_toast(&self) -> Seq<char> {
        self.toast@
    }

    /// The fruit the kitchen picked.
    pub closed spec fn spec_fruit(&self) -> Seq<char> {
        self.seasonal_fruit@
    }

    /// A summer breakfast with the given toast; the kitchen serves
    /// peaches with it.
    pub fn summer(toast: &str) -> (r: Breakfast)
        ensures
            r.spec_toast() == toast@,
            r.spec_fruit() == "peaches"@,
    {
        Breakfast { toast: String::from_str(toast), seasonal_fruit: String::from_str("peaches") }
    }

    /// Changes the choice of toast; the fruit stays the kitchen's.
    pub fn set_toast(&mut self, toast: String)
        ensures
            final(self).spec_toast() == toast@,
            final(self).spec_fruit() == old(self).spec_fruit(),
    {
        self.toast = toast;
    }
}

/// A starter course.
pub enum Appetizer {
    Soup,
    Salad,
}

/// Remakes a wrong order: cook it again, then send it out.
#[allow(dead_code)]
fn fix_incorrect_order() {
    cook_order();
    super::deliver_order();
}

/// The kitchen prepares an order; nothing to it yet.
fn cook_order() {
}

} // verus!
