//! The library's only source of randomness: a seedable generator handle
//! passed explicitly into every stochastic operation, so that runs are
//! reproducible.  The raw draws come from the `rand` crate and are trusted;
//! everything derived from a draw is verified.

use vstd::prelude::*;

verus! {

/// The standard generator of the `rand` crate, opaque to verification.
#[verifier::external_type_specification]
#[verifier::external_body]
pub struct ExStdRng(rand::rngs::StdRng);

/// A seedable random-number source for one simulation run.
pub struct SimRng {
    inner: rand::rngs::StdRng,
}

impl SimRng {
    /// Relies on rand_core::SeedableRng::seed_from_u64: builds a generator
    /// whose draws are a reproducible function of the seed.
    #[verifier::external_body]
    pub fn from_seed(seed: u64) -> SimRng {
        SimRng { inner: <rand::rngs::StdRng as rand::SeedableRng>::seed_from_u64(seed) }
    }

    /// Relies on rand_core::RngCore::next_u64 for one raw draw; nothing is
    /// assumed about the value.
    #[verifier::external_body]
    fn next_u64(&mut self) -> u64 {
        rand::RngCore::next_u64(&mut self.inner)
    }

    /// One draw reduced to the probability scale: a value in [0, BILLION).
    pub fn draw_ppb(&mut self) -> (r: u64)
        ensures
            r < crate::numeric::BILLION,
    {
        self.next_u64() % crate::numeric::BILLION
    }
}

/// The outcome of a Bernoulli trial on an explicit uniform draw: the trial
/// succeeds exactly when the draw falls below the success probability.
pub fn bernoulli_outcome(draw: u64, probability_ppb: u64) -> (r: bool)
    ensures
        r == (draw < probability_ppb),
{
    draw < probability_ppb
}

} // verus!
