//! A quantum channel between two nodes: distance and attenuation determine
//! a success probability through the exponential fiber-loss model
//! p = e^(-alpha * L), alpha = (ln 10 / 10) * attenuation.

use crate::numeric::{
    decay_spec, decay_factor, lemma_decay_mono, lemma_decay_strict, BILLION, DECAY_CAP,
};
use crate::rng::{bernoulli_outcome, SimRng};
use vstd::arithmetic::div_mod::lemma_div_is_ordered;
use vstd::arithmetic::mul::lemma_mul_inequality;
use vstd::prelude::*;

verus! {

/// Loss per meter and per (milli-dB/km), in decay steps of 2^-12 nats,
/// scaled by BILLION: round((ln 10 / 10) * 1e-6 * 4096 * 1e9).
pub const LOSS_STEPS: u64 = 943_139;

/// Largest distance (meters) and attenuation (milli-dB/km) a channel
/// accepts; keeps the loss-exponent arithmetic inside u128.
pub const CHANNEL_LIMIT: u64 = 1_000_000_000_000;

/// The decay exponent of a channel, in 2^-12 nat steps.
pub open spec fn loss_exponent(distance_m: nat, attenuation_mdb_per_km: nat) -> nat {
    (distance_m * attenuation_mdb_per_km * (LOSS_STEPS as nat)) / (BILLION as nat)
}

/// The transmission success probability in parts per billion.
pub open spec fn transmission_spec(distance_m: nat, attenuation_mdb_per_km: nat) -> nat {
    decay_spec(loss_exponent(distance_m, attenuation_mdb_per_km))
}

/// A quantum channel connecting two nodes; immutable after construction
/// and memoryless: every attempt is an independent Bernoulli trial.
#[derive(Clone, Copy, Debug)]
pub struct QuantumChannel {
    /// ID of the first node.
    pub node_a: usize,
    /// ID of the second node.
    pub node_b: usize,
    /// Physical distance in meters.
    pub distance_m: u64,
    /// Attenuation coefficient in milli-dB per km (typical telecom fiber:
    /// 200, i.e. 0.2 dB/km).
    pub attenuation_mdb_per_km: u64,
}

impl QuantumChannel {
    /// Parameters small enough for the loss arithmetic.
    pub open spec fn wf(self) -> bool {
        self.distance_m <= CHANNEL_LIMIT && self.attenuation_mdb_per_km <= CHANNEL_LIMIT
    }

    /// The channel's success probability as a spec value.
    pub open spec fn success_probability_spec(self) -> nat {
        transmission_spec(self.distance_m as nat, self.attenuation_mdb_per_km as nat)
    }

    /// A new channel between two nodes.
    pub fn new(node_a: usize, node_b: usize, distance_m: u64, attenuation_mdb_per_km: u64)
        -> (c: QuantumChannel)
        requires
            distance_m <= CHANNEL_LIMIT,
            attenuation_mdb_per_km <= CHANNEL_LIMIT,
        ensures
            c.node_a == node_a,
            c.node_b == node_b,
            c.distance_m == distance_m,
            c.attenuation_mdb_per_km == attenuation_mdb_per_km,
            c.wf(),
    {
        QuantumChannel { node_a, node_b, distance_m, attenuation_mdb_per_km }
    }

    /// Success probability e^(-alpha * L) in parts per billion: exactly
    /// 1.0 at distance 0 or attenuation 0, and monotonically decreasing
    /// in both (see the lemmas below).
    pub fn success_probability(&self) -> (p: u64)
        requires
            self.wf(),
        ensures
            p == self.success_probability_spec(),
            p <= BILLION,
            self.distance_m == 0 ==> p == BILLION,
            self.attenuation_mdb_per_km == 0 ==> p == BILLION,
    {
        proof {
            assert(self.distance_m as int * self.attenuation_mdb_per_km as int
                <= 1_000_000_000_000_000_000_000_000
                && self.distance_m as int * self.attenuation_mdb_per_km as int >= 0)
                by (nonlinear_arith)
                requires
                    0 <= self.distance_m <= CHANNEL_LIMIT,
                    0 <= self.attenuation_mdb_per_km <= CHANNEL_LIMIT;
            assert(self.distance_m as int * self.attenuation_mdb_per_km as int
                * (LOSS_STEPS as int) <= 943_139_000_000_000_000_000_000_000_000
                && self.distance_m as int * self.attenuation_mdb_per_km as int
                    * (LOSS_STEPS as int) >= 0)
                by (nonlinear_arith)
                requires
                    0 <= self.distance_m as int * self.attenuation_mdb_per_km as int
                        <= 1_000_000_000_000_000_000_000_000;
        }
        let prod: u128 = (self.distance_m as u128) * (self.attenuation_mdb_per_km as u128)
            * (LOSS_STEPS as u128);
        let e: u128 = prod / (BILLION as u128);
        let exponent: u64 = if e >= DECAY_CAP as u128 {
            DECAY_CAP
        } else {
            e as u64
        };
        proof {
            assert(decay_spec(exponent as nat) == self.success_probability_spec());
            if self.distance_m == 0 || self.attenuation_mdb_per_km == 0 {
                assert(self.distance_m as int * self.attenuation_mdb_per_km as int
                    * LOSS_STEPS as int == 0) by (nonlinear_arith)
                    requires self.distance_m == 0 || self.attenuation_mdb_per_km == 0;
            }
        }
        decay_factor(exponent)
    }

    /// Whether this channel touches the given node.
    pub fn connects_to(&self, node_id: usize) -> (b: bool)
        ensures
            b == (self.node_a == node_id || self.node_b == node_id),
    {
        self.node_a == node_id || self.node_b == node_id
    }

    /// The other end of the channel, seen from one end.
    pub fn get_partner(&self, node_id: usize) -> (r: Option<usize>)
        ensures
            self.node_a == node_id ==> r == Some(self.node_b),
            self.node_a != node_id && self.node_b == node_id ==> r == Some(self.node_a),
            self.node_a != node_id && self.node_b != node_id ==> r is None,
    {
        if self.node_a == node_id {
            Some(self.node_b)
        } else if self.node_b == node_id {
            Some(self.node_a)
        } else {
            None
        }
    }

    /// One Bernoulli transmission trial over this channel.  The draw is
    /// random; what is guaranteed is only that a lossless channel always
    /// succeeds and a fully opaque one never does.
    pub fn attempt_generation(&self, rng: &mut SimRng) -> (b: bool)
        requires
            self.wf(),
        ensures
            self.success_probability_spec() == BILLION ==> b,
            self.success_probability_spec() == 0 ==> !b,
    {
        let p = self.success_probability();
        let draw = rng.draw_ppb();
        bernoulli_outcome(draw, p)
    }
}

/// The loss exponent grows with distance and with attenuation.
pub proof fn lemma_loss_exponent_monotone(d1: nat, a1: nat, d2: nat, a2: nat)
    requires
        d1 <= d2,
        a1 <= a2,
    ensures
        loss_exponent(d1, a1) <= loss_exponent(d2, a2),
{
    lemma_mul_inequality(d1 as int, d2 as int, a1 as int);
    lemma_mul_inequality(a1 as int, a2 as int, d2 as int);
    assert(d2 as int * a1 as int == a1 as int * d2 as int) by (nonlinear_arith);
    assert(a2 as int * d2 as int == d2 as int * a2 as int) by (nonlinear_arith);
    lemma_mul_inequality(d1 as int * a1 as int, d2 as int * a2 as int, LOSS_STEPS as int);
    lemma_div_is_ordered(
        d1 as int * a1 as int * LOSS_STEPS as int,
        d2 as int * a2 as int * LOSS_STEPS as int,
        BILLION as int,
    );
}

/// Longer or lossier channels are never more likely to succeed.
pub proof fn lemma_probability_monotone(d1: nat, a1: nat, d2: nat, a2: nat)
    requires
        d1 <= d2,
        a1 <= a2,
    ensures
        transmission_spec(d2, a2) <= transmission_spec(d1, a1),
{
    lemma_loss_exponent_monotone(d1, a1, d2, a2);
    lemma_decay_mono(loss_exponent(d1, a1), loss_exponent(d2, a2));
}

/// Wherever the success probability is still positive, it strictly
/// decreases as soon as the integer loss exponent grows.  (Distances that
/// round to the same exponent share a probability: that is the fixed-point
/// granularity.)
pub proof fn lemma_probability_strict(d1: nat, a1: nat, d2: nat, a2: nat)
    requires
        loss_exponent(d1, a1) < loss_exponent(d2, a2),
        transmission_spec(d1, a1) > 0,
    ensures
        transmission_spec(d2, a2) < transmission_spec(d1, a1),
{
    lemma_decay_strict(loss_exponent(d1, a1), loss_exponent(d2, a2));
}

} // verus!
