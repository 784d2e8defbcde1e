use rand::Rng;
use vstd::prelude::*;

verus! {

/// Draws a number from `0..=max` with `rand::Rng::gen_range` on the generator
/// of `rand::thread_rng()`. The contract claims what rand documents: the number
/// lies in the range (which is never empty here, so the call does not panic).
/// Which number comes out is chance and is left unsaid.
#[verifier::external_body]
pub(crate) fn draw_up_to(max: u32) -> (n: u32)
    ensures
        n <= max,
{
    rand::thread_rng().gen_range(0..=max)
}

/// Draws a `usize` with `rand::Rng::gen` on the generator of
/// `rand::thread_rng()`. Any value can come out, so nothing is claimed of it.
#[verifier::external_body]
pub(crate) fn draw_usize() -> usize {
    rand::thread_rng().gen::<usize>()
}

} // verus!
