//! Making up the answer: every peg is drawn on its own, and every colour is
//! as likely as any other.

use rand::Rng;
use vstd::prelude::*;

use crate::peg::{ColorPeg, COLOR_COUNT};

verus! {

/// Draws a number from the generator of the running thread.
///
/// Calls `rand::thread_rng` and `Rng::gen_range` on the half-open range from
/// zero to `bound`. All that is claimed of the outcome is that it lies in
/// that range; `gen_range` panics on an empty range, which `requires` keeps
/// out.
#[verifier::external_body]
fn draw_below(bound: u8) -> (drawn: u8)
    requires
        bound > 0,
    ensures
        drawn < bound,
{
    rand::thread_rng().gen_range(0..bound)
}

/// A peg of a colour drawn at random.
pub fn random_peg() -> ColorPeg {
    ColorPeg::from_index(draw_below(COLOR_COUNT))
}

/// A code of the given number of pegs, each drawn at random.
pub fn random_code(peg_count: usize) -> (code: Vec<ColorPeg>)
    ensures
        code@.len() == peg_count,
{
    let mut code: Vec<ColorPeg> = Vec::new();
    let mut i: usize = 0;
    while i < peg_count
        invariant
            i <= peg_count,
            code@.len() == i,
        decreases peg_count - i,
    {
        code.push(random_peg());
        i += 1;
    }
    code
}

} // verus!
