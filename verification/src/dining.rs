//! Ordering breakfast at a restaurant, spread over a small module tree:
//! the front of house seats guests, the back of house cooks.

pub mod back_of_house;
pub mod front_of_house;

use vstd::prelude::*;

verus! {

/// Orders a summer breakfast with rye toast, changes the choice to wheat,
/// and phrases the final toast order.
pub fn eat_at_restaurant() -> (r: String)
    ensures
        r@ == "I'd like Wheat toast please"@,
{
    let mut meal = back_of_house::Breakfast::summer("Rye");
    let wheat = String::from_str("Wheat");
    meal.set_toast(wheat.clone());
    let _order1 = back_of_house::Appetizer::Soup;
    let _order2 = back_of_house::Appetizer::Salad;
    let mut msg = String::from_str("I'd like ");
    msg.append(wheat.as_str());
    msg.append(" toast please");
    proof {
        reveal_strlit("I'd like ");
        reveal_strlit("Wheat");
        reveal_strlit(" toast please");
        reveal_strlit("I'd like Wheat toast please");
        assert(msg@ =~= "I'd like Wheat toast please"@);
    }
    msg
}

/// An order is walked out to a table; nothing to it yet.
fn deliver_order() {
}

} // verus!
