//! The random number generator: a linear congruential sequence of 32-bit
//! seeds. The seed is part of the processor's state, so that equal states
//! draw equal numbers.

use vstd::prelude::*;

verus! {

/// The multiplier of the sequence.
pub const MULTIPLIER: u64 = 1664525;

/// The increment of the sequence.
pub const INCREMENT: u64 = 1013904223;

/// The seed that follows `seed`: `seed * 1664525 + 1013904223` modulo 2^32.
pub open spec fn next_seed_spec(seed: u32) -> u32 {
    ((seed * 1664525 + 1013904223) % 0x1_0000_0000) as u32
}

/// The number drawn when the seed moves on from `seed`: the high half of the
/// next seed, reduced modulo `bound`. With a bound of zero there is no
/// number below it, and the draw is 0.
pub open spec fn draw_spec(seed: u32, bound: u16) -> u16 {
    if bound == 0 {
        0
    } else {
        ((next_seed_spec(seed) / 0x1_0000) % (bound as u32)) as u16
    }
}

/// Computes the seed that follows `seed`.
pub fn next_seed(seed: u32) -> (next: u32)
    ensures
        next == next_seed_spec(seed),
{
    let wide: u64 = seed as u64 * MULTIPLIER + INCREMENT;
    (wide % 0x1_0000_0000) as u32
}

/// Draws a number below `bound` from the seed that follows `seed`; where
/// `bound` is 0 the number is 0.
pub fn draw(seed: u32, bound: u16) -> (value: u16)
    ensures
        value == draw_spec(seed, bound),
        bound > 0 ==> value < bound,
        bound == 0 ==> value == 0,
{
    if bound == 0 {
        0
    } else {
        let high: u32 = next_seed(seed) / 0x1_0000;
        (high % bound as u32) as u16
    }
}

} // verus!
