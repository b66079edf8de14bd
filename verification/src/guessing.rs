//! The judging half of a number-guessing game: a secret is drawn between
//! 1 and 100, and each guess is answered as too small, too big, or a win.

use rand::Rng;
use vstd::prelude::*;

verus! {

/// How a guess stands against the secret number.
#[derive(PartialEq, Eq, Structural, Clone, Copy, Debug)]
pub enum Verdict {
    TooSmall,
    TooBig,
    Win,
}

/// The verdict on a guess: too small or too big of an unequal guess, and a
/// win on equality.
pub open spec fn spec_verdict(guess: u32, secret: u32) -> Verdict {
    if guess < secret {
        Verdict::TooSmall
    } else if guess > secret {
        Verdict::TooBig
    } else {
        Verdict::Win
    }
}

/// Compares a guess with the secret number.
pub fn judge(guess: u32, secret: u32) -> (r: Verdict)
    ensures
        r == spec_verdict(guess, secret),
{
    if guess < secret {
        Verdict::TooSmall
    } else if guess > secret {
        Verdict::TooBig
    } else {
        Verdict::Win
    }
}

/// Relies on rand::thread_rng and Rng::gen_range: sampling `low..high`
/// yields a value in that range, and panics only on an empty range.
#[verifier::external_body]
fn random_in_range(low: u32, high: u32) -> (r: u32)
    requires
        low < high,
    ensures
        low <= r < high,
{
    rand::thread_rng().gen_range(low..high)
}

/// Draws a fresh secret number between 1 and 100 inclusive.
pub fn pick_secret() -> (r: u32)
    ensures
        1 <= r <= 100,
{
    random_in_range(1, 101)
}

} // verus!
