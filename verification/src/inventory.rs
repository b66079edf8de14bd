//! A shirt giveaway: a customer with a stated preference gets that color,
//! anyone else gets the color the store has most of.

use crate::seqs::lemma_filter_grow;
use vstd::prelude::*;

verus! {

/// The colors of shirt the store stocks.
#[derive(PartialEq, Eq, Structural, Clone, Copy, Debug)]
pub enum ShirtColor {
    Red,
    Blue,
}

/// The test for shirts of color `c`.
pub open spec fn is_color(c: ShirtColor) -> spec_fn(ShirtColor) -> bool {
    |s: ShirtColor| s == c
}

/// How many shirts of color `c` the stock holds.
pub open spec fn count_color(shirts: Seq<ShirtColor>, c: ShirtColor) -> nat {
    shirts.filter(is_color(c)).len()
}

/// The color with the most shirts in stock; blue wins a tie.
pub open spec fn spec_most_stocked(shirts: Seq<ShirtColor>) -> ShirtColor {
    if count_color(shirts, ShirtColor::Red) > count_color(shirts, ShirtColor::Blue) {
        ShirtColor::Red
    } else {
        ShirtColor::Blue
    }
}

/// The store's stock of giveaway shirts.
pub struct Inventory {
    pub shirts: Vec<ShirtColor>,
}

impl Inventory {
    /// The color with the most shirts in stock; blue wins a tie.
    pub fn most_stocked(&self) -> (r: ShirtColor)
        ensures
            r == spec_most_stocked(self.shirts@),
    {
        let ghost all = self.shirts@;
        let mut num_red: usize = 0;
        let mut num_blue: usize = 0;
        let mut i: usize = 0;
        proof {
            assert(all.subrange(0, 0) =~= Seq::<ShirtColor>::empty());
            assert(all.subrange(0, 0).filter(is_color(ShirtColor::Red)) =~= Seq::<
                ShirtColor,
            >::empty());
            assert(all.subrange(0, 0).filter(is_color(ShirtColor::Blue)) =~= Seq::<
                ShirtColor,
            >::empty());
        }
        while i < self.shirts.len()
            invariant
                i <= all.len(),
                all == self.shirts@,
                num_red <= i,
                num_blue <= i,
                num_red == count_color(all.subrange(0, i as int), ShirtColor::Red),
                num_blue == count_color(all.subrange(0, i as int), ShirtColor::Blue),
            decreases all.len() - i,
        {
            proof {
                lemma_filter_grow(all, is_color(ShirtColor::Red), i as int);
                lemma_filter_grow(all, is_color(ShirtColor::Blue), i as int);
            }
            match self.shirts[i] {
                ShirtColor::Red => {
                    num_red = num_red + 1;
                },
                ShirtColor::Blue => {
                    num_blue = num_blue + 1;
                },
            }
            i = i + 1;
        }
        proof {
            assert(all.subrange(0, all.len() as int) =~= all);
        }
        if num_red > num_blue {
            ShirtColor::Red
        } else {
            ShirtColor::Blue
        }
    }

    /// The stated preference when there is one, and otherwise the color
    /// with the most shirts in stock.
    pub fn giveaway(&self, user_preference: Option<ShirtColor>) -> (r: ShirtColor)
        ensures
            r == match user_preference {
                Some(c) => c,
                None => spec_most_stocked(self.shirts@),
            },
    {
        match user_preference {
            Some(c) => c,
            None => self.most_stocked(),
        }
    }
}

} // verus!
