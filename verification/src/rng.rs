//! The engine's seedable random source.
//!
//! All stochastic operators draw from a [`SeededRng`] that the caller
//! constructs from an explicit seed; the engine never touches global random
//! state, so a run is reproducible under a fixed seed.

use vstd::prelude::*;

verus! {

/// An explicitly owned, seedable pseudo-random source.
///
/// Nothing is promised about the values drawn beyond their range: to the
/// verifier two draws with equal arguments may differ.
pub struct SeededRng {
    inner: rand::rngs::StdRng,
}

#[verifier::external_type_specification]
#[verifier::external_body]
pub struct ExStdRng(rand::rngs::StdRng);

/// Relies on rand's `SeedableRng::seed_from_u64` for `StdRng`: it builds a
/// generator from the seed and returns.
#[verifier::external_body]
fn std_rng_from_seed(seed: u64) -> rand::rngs::StdRng {
    <rand::rngs::StdRng as rand::SeedableRng>::seed_from_u64(seed)
}

/// Relies on rand's `Rng::gen_range` over `0..bound` at `u64`: it returns a
/// value of the range, and panics only when the range is empty, which the
/// precondition rules out.
#[verifier::external_body]
fn std_rng_below(rng: &mut rand::rngs::StdRng, bound: u64) -> (r: u64)
    requires
        bound > 0,
    ensures
        r < bound,
{
    rand::Rng::gen_range(rng, 0..bound)
}

impl SeededRng {
    /// Builds a random source from an explicit seed.
    pub fn new(seed: u64) -> SeededRng {
        SeededRng { inner: std_rng_from_seed(seed) }
    }

    /// Draws a value uniformly from `[0, bound)`.
    pub fn below(&mut self, bound: u64) -> (r: u64)
        requires
            bound > 0,
        ensures
            r < bound,
    {
        std_rng_below(&mut self.inner, bound)
    }

    /// Draws a gene uniformly from the domain `[lo, hi)`.
    pub fn gene(&mut self, lo: u8, hi: u8) -> (r: u8)
        requires
            lo < hi,
        ensures
            lo <= r < hi,
    {
        let width: u64 = (hi - lo) as u64;
        let d = self.below(width);
        lo + (d as u8)
    }

    /// Draws an index uniformly from `[0, n)`.
    pub fn index(&mut self, n: usize) -> (r: usize)
        requires
            n > 0,
        ensures
            r < n,
    {
        let d = self.below(n as u64);
        d as usize
    }
}

} // verus!
