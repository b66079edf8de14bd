//! The smallest possible functions: a constant, a successor, and a block
//! used as an expression.

use vstd::prelude::*;

verus! {

/// The number five.
pub fn five() -> (r: i32)
    ensures
        r == 5,
{
    5
}

/// One more than the argument.
pub fn plus_one(x: i32) -> (r: i32)
    requires
        x < i32::MAX,
    ensures
        r == x + 1,
{
    x + 1
}

/// A block is an expression: its last expression, written without a
/// semicolon, is its value.
pub fn statement_and_expressions() {
    let y: i32 = {
        let x: i32 = 3;
        x + 1
    };
    assert(y == 4);
}

} // verus!
