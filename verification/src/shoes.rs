//! Picking out of a stock of shoes exactly those of one size, in their
//! stock order.

use crate::seqs::lemma_filter_grow;
use vstd::prelude::*;

verus! {

/// A shoe in stock.
#[derive(Debug)]
pub struct Shoe {
    pub size: u32,
    pub style: String,
}

/// The test for shoes of size `size`.
pub open spec fn is_size(size: u32) -> spec_fn(Shoe) -> bool {
    |s: Shoe| s.size == size
}

/// The shoes of the given size, in their stock order.
pub fn shoes_in_size(shoes: Vec<Shoe>, shoe_size: u32) -> (r: Vec<Shoe>)
    ensures
        r@ == shoes@.filter(is_size(shoe_size)),
{
    let ghost orig = shoes@;
    let ghost pred = is_size(shoe_size);
    let mut rest = shoes;
    let mut out: Vec<Shoe> = Vec::new();
    proof {
        assert(orig.subrange(0, 0) =~= Seq::<Shoe>::empty());
        assert(orig.subrange(0, 0).filter(pred) =~= Seq::<Shoe>::empty());
        assert(rest@ =~= orig.subrange(0, orig.len() as int));
    }
    while rest.len() > 0
        invariant
            rest@.len() <= orig.len(),
            rest@ == orig.subrange(
                orig.len() - rest@.len(),
                orig.len() as int,
            ),
            out@ == orig.subrange(0, orig.len() - rest@.len()).filter(pred),
            pred == is_size(shoe_size),
        decreases rest@.len(),
    {
        let ghost i: int = orig.len() - rest@.len();
        let s = rest.remove(0);
        proof {
            assert(s == orig[i]);
            assert(rest@ =~= orig.subrange(i + 1, orig.len() as int));
            lemma_filter_grow(orig, pred, i);
        }
        if s.size == shoe_size {
            out.push(s);
        }
    }
    proof {
        assert(orig.subrange(0, orig.len() as int) =~= orig);
    }
    out
}

} // verus!
