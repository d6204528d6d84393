//! Random-number plumbing.
//!
//! All randomness in the simulation (road walk, spawn placement, steering
//! jitter) flows through one [`SimRng`], which wraps a seeded generator so
//! that a whole run is reproducible from its seed.

use vstd::prelude::*;

verus! {

#[verifier::external_type_specification]
#[verifier::external_body]
pub struct ExStdRng(rand::rngs::StdRng);

/// Relies on rand's `SeedableRng::seed_from_u64`: builds a generator from
/// a 64-bit seed; the draw sequence is a function of the seed alone.
#[verifier::external_body]
fn seed_std_rng(seed: u64) -> rand::rngs::StdRng {
    <rand::rngs::StdRng as rand::SeedableRng>::seed_from_u64(seed)
}

/// Relies on rand's `Rng::gen_range` over an inclusive range: the sample
/// lies in the range, and the call panics only on an empty range, which
/// the precondition rules out.
#[verifier::external_body]
fn std_rng_range(rng: &mut rand::rngs::StdRng, lo: i64, hi: i64) -> (r: i64)
    requires
        lo <= hi,
    ensures
        lo <= r <= hi,
{
    <rand::rngs::StdRng as rand::Rng>::gen_range(rng, lo..=hi)
}

/// A seeded random source.  Two sources built from the same seed hand out
/// the same draw sequence, which makes runs reproducible.
pub struct SimRng {
    rng: rand::rngs::StdRng,
}

impl SimRng {
    /// Builds the generator for one run from its seed.
    pub fn from_seed(seed: u64) -> SimRng {
        SimRng { rng: seed_std_rng(seed) }
    }

    /// Draws an integer from the inclusive range `[lo, hi]`.
    pub fn next_in(&mut self, lo: i64, hi: i64) -> (r: i64)
        requires
            lo <= hi,
        ensures
            lo <= r <= hi,
    {
        std_rng_range(&mut self.rng, lo, hi)
    }

    /// Draws from `[0, 999]`; a per-mille event with probability `p/1000`
    /// occurs when the draw is below `p`.
    pub fn per_mille(&mut self) -> (r: i64)
        ensures
            0 <= r <= 999,
    {
        std_rng_range(&mut self.rng, 0, 999)
    }

    /// Draws from `[0, 9999]`; a per-myriad event with probability
    /// `p/10000` occurs when the draw is below `p`.
    pub fn per_myriad(&mut self) -> (r: i64)
        ensures
            0 <= r <= 9999,
    {
        std_rng_range(&mut self.rng, 0, 9999)
    }
}

} // verus!
