//! The randomness capability that drives uniform-random selection.
//!
//! A corpus consumes randomness only through [`Rand::below`]; the capability
//! is borrowed mutably for the exact duration of a single selection call and
//! not retained across calls.

use vstd::prelude::*;

verus! {

/// A source of pseudo-random numbers, consumed through `below` alone.
pub trait Rand {
    /// Draws a value in `[0, bound)` when `bound > 0`.
    fn below(&mut self, bound: u64) -> (r: u64)
        ensures
            bound > 0 ==> r < bound,
    ;
}

/// Fallback seed; also substituted for a zero seed, on which the xorshift
/// step would be the constant zero.
const DEFAULT_SEED: u64 = 0x9E3779B97F4A7C15;

/// A small xorshift pseudo-random number generator: deterministic for a given
/// seed, which keeps scheduling decisions reproducible in tests.
pub struct XorShiftRand {
    state: u64,
}

impl XorShiftRand {
    /// Creates a generator from an explicit seed.
    pub fn with_seed(seed: u64) -> Self {
        if seed == 0 {
            XorShiftRand { state: DEFAULT_SEED }
        } else {
            XorShiftRand { state: seed }
        }
    }

    /// Creates a generator from the fixed default seed.
    pub fn new() -> Self {
        XorShiftRand::with_seed(DEFAULT_SEED)
    }

    /// One xorshift step of the internal state.
    fn next_u64(&mut self) -> u64 {
        let mut x: u64 = self.state;
        x = x ^ (x << 13);
        x = x ^ (x >> 7);
        x = x ^ (x << 17);
        self.state = x;
        x
    }
}

impl Rand for XorShiftRand {
    fn below(&mut self, bound: u64) -> (r: u64) {
        if bound == 0 {
            0
        } else {
            self.next_u64() % bound
        }
    }
}

} // verus!
