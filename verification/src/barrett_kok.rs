//! The Barrett-Kok heralded entanglement-generation protocol: a
//! multi-stage chain of independent Bernoulli gates (memory emission,
//! channel transmission, Bell-state measurement, detector clicks) that on
//! success stores one entangled pair in each node.

use crate::channel::{transmission_spec, QuantumChannel};
use crate::node::{CapacityError, QuantumNode, StoredPair};
use crate::numeric::{mul_ppb, mul_ppb_spec, BILLION};
use crate::rng::{bernoulli_outcome, SimRng};
use crate::state::TwoQubitState;
use vstd::prelude::*;

verus! {

/// Configuration of one protocol instance; all probabilities in parts
/// per billion, fixed at construction.
#[derive(Clone, Copy, Debug, PartialEq, Eq, Structural)]
pub struct BarrettKokProtocol {
    /// Success rate of the Bell-state measurement (half scale for a
    /// single-atom BSM, full scale for an ideal one).
    pub bsm_efficiency: u64,
    /// Detector efficiency.
    pub detector_efficiency: u64,
    /// Detector dark-count rate (false positives); carried in the
    /// configuration, not part of the staged success model.
    pub dark_count_rate: u64,
    /// Fidelity assigned to a pair on successful generation.
    pub initial_fidelity: u64,
    /// Probability that a node's memory emits its photon.
    pub memory_efficiency: u64,
}

/// The closed-form success rate of one attempt over a given channel:
/// transmission^2 * bsm * detector^2 (both photons arrive, the BSM works,
/// both detectors click).
pub open spec fn theoretical_rate_spec(
    p: BarrettKokProtocol,
    distance_m: nat,
    attenuation_mdb_per_km: nat,
) -> nat {
    let t = transmission_spec(distance_m, attenuation_mdb_per_km);
    mul_ppb_spec(
        mul_ppb_spec(
            mul_ppb_spec(mul_ppb_spec(t, t), p.bsm_efficiency as nat),
            p.detector_efficiency as nat,
        ),
        p.detector_efficiency as nat,
    )
}

impl BarrettKokProtocol {
    /// All configured probabilities are within scale.
    pub open spec fn wf(self) -> bool {
        &&& self.bsm_efficiency <= BILLION
        &&& self.detector_efficiency <= BILLION
        &&& self.dark_count_rate <= BILLION
        &&& self.initial_fidelity <= BILLION
        &&& self.memory_efficiency <= BILLION
    }

    /// A protocol from explicit parameters.
    pub fn new(
        bsm_efficiency: u64,
        detector_efficiency: u64,
        dark_count_rate: u64,
        initial_fidelity: u64,
        memory_efficiency: u64,
    ) -> (p: BarrettKokProtocol)
        requires
            bsm_efficiency <= BILLION,
            detector_efficiency <= BILLION,
            dark_count_rate <= BILLION,
            initial_fidelity <= BILLION,
            memory_efficiency <= BILLION,
        ensures
            p.bsm_efficiency == bsm_efficiency,
            p.detector_efficiency == detector_efficiency,
            p.dark_count_rate == dark_count_rate,
            p.initial_fidelity == initial_fidelity,
            p.memory_efficiency == memory_efficiency,
            p.wf(),
    {
        BarrettKokProtocol {
            bsm_efficiency,
            detector_efficiency,
            dark_count_rate,
            initial_fidelity,
            memory_efficiency,
        }
    }

    /// The reference parameter preset: single-atom BSM, 90% detectors,
    /// no dark counts, lossless memory emission.
    pub fn sequence_parameters() -> (p: BarrettKokProtocol)
        ensures
            p.bsm_efficiency == 500_000_000,
            p.detector_efficiency == 900_000_000,
            p.dark_count_rate == 0,
            p.initial_fidelity == 950_000_000,
            p.memory_efficiency == BILLION,
            p.wf(),
    {
        BarrettKokProtocol {
            bsm_efficiency: 500_000_000,
            detector_efficiency: 900_000_000,
            dark_count_rate: 0,
            initial_fidelity: 950_000_000,
            memory_efficiency: BILLION,
        }
    }

    /// The realistic preset: like the reference parameters, with 1% dark
    /// counts and 90% memory emission.
    pub fn realistic() -> (p: BarrettKokProtocol)
        ensures
            p.bsm_efficiency == 500_000_000,
            p.detector_efficiency == 900_000_000,
            p.dark_count_rate == 10_000_000,
            p.initial_fidelity == 950_000_000,
            p.memory_efficiency == 900_000_000,
            p.wf(),
    {
        BarrettKokProtocol {
            bsm_efficiency: 500_000_000,
            detector_efficiency: 900_000_000,
            dark_count_rate: 10_000_000,
            initial_fidelity: 950_000_000,
            memory_efficiency: 900_000_000,
        }
    }

    /// Attempt entanglement generation across a channel.
    ///
    /// Three-way outcome: `Err` when a node is full at entry (the first
    /// full node is reported, nothing changes), `Ok(false)` when some
    /// Bernoulli gate failed (nothing changes), `Ok(true)` when a Bell
    /// pair with the configured initial fidelity was stored in each node.
    pub fn attempt_generation(
        &self,
        node_a: &mut QuantumNode,
        node_b: &mut QuantumNode,
        channel: &QuantumChannel,
        current_time: u64,
        rng: &mut SimRng,
    ) -> (r: Result<bool, CapacityError>)
        requires
            self.wf(),
            channel.wf(),
        ensures
            final(node_a).id == old(node_a).id,
            final(node_a).memory_capacity == old(node_a).memory_capacity,
            final(node_b).id == old(node_b).id,
            final(node_b).memory_capacity == old(node_b).memory_capacity,
            r is Err <==> old(node_a).pairs().len() >= old(node_a).memory_capacity
                || old(node_b).pairs().len() >= old(node_b).memory_capacity,
            r is Err ==> {
                &&& final(node_a).pairs() == old(node_a).pairs()
                &&& final(node_b).pairs() == old(node_b).pairs()
                &&& if old(node_a).pairs().len() >= old(node_a).memory_capacity {
                    r->Err_0 == (CapacityError {
                        node_id: old(node_a).id,
                        occupancy: old(node_a).pairs().len() as usize,
                        capacity: old(node_a).memory_capacity,
                    })
                } else {
                    r->Err_0 == (CapacityError {
                        node_id: old(node_b).id,
                        occupancy: old(node_b).pairs().len() as usize,
                        capacity: old(node_b).memory_capacity,
                    })
                }
            },
            r is Ok && !r->Ok_0 ==> final(node_a).pairs() == old(node_a).pairs()
                && final(node_b).pairs() == old(node_b).pairs(),
            r is Ok && r->Ok_0 ==> {
                &&& final(node_a).pairs() == old(node_a).pairs().push(
                    final(node_a).pairs().last(),
                )
                &&& final(node_b).pairs() == old(node_b).pairs().push(
                    final(node_b).pairs().last(),
                )
                &&& final(node_a).pairs().last().partner_node_id == old(node_b).id
                &&& final(node_b).pairs().last().partner_node_id == old(node_a).id
                &&& final(node_a).pairs().last().state == TwoQubitState::bell_phi_plus_spec()
                &&& final(node_b).pairs().last().state == TwoQubitState::bell_phi_plus_spec()
                &&& final(node_a).pairs().last().creation_time == current_time
                &&& final(node_b).pairs().last().creation_time == current_time
                &&& final(node_a).pairs().last().fidelity == self.initial_fidelity
                &&& final(node_b).pairs().last().fidelity == self.initial_fidelity
            },
            r is Ok && self.memory_efficiency == BILLION && self.bsm_efficiency == BILLION
                && self.detector_efficiency == BILLION
                && channel.success_probability_spec() == BILLION ==> r->Ok_0,
            r is Ok && (self.memory_efficiency == 0 || self.bsm_efficiency == 0
                || self.detector_efficiency == 0 || channel.success_probability_spec() == 0)
                ==> !r->Ok_0,
    {
        if !node_a.has_memory_available() {
            return Err(CapacityError {
                node_id: node_a.id,
                occupancy: node_a.num_stored_pairs(),
                capacity: node_a.memory_capacity,
            });
        }
        if !node_b.has_memory_available() {
            return Err(CapacityError {
                node_id: node_b.id,
                occupancy: node_b.num_stored_pairs(),
                capacity: node_b.memory_capacity,
            });
        }

        let transmission_prob = channel.success_probability();

        // Stage 1: memory emission at node A, then node B.
        if !bernoulli_outcome(rng.draw_ppb(), self.memory_efficiency) {
            return Ok(false);
        }
        if !bernoulli_outcome(rng.draw_ppb(), self.memory_efficiency) {
            return Ok(false);
        }

        // Stage 2: both photons survive the channel to the midpoint.
        if !bernoulli_outcome(rng.draw_ppb(), transmission_prob) {
            return Ok(false);
        }
        if !bernoulli_outcome(rng.draw_ppb(), transmission_prob) {
            return Ok(false);
        }

        // Stage 3: the Bell-state measurement succeeds.
        if !bernoulli_outcome(rng.draw_ppb(), self.bsm_efficiency) {
            return Ok(false);
        }

        // Stage 4: both detectors click.
        if !bernoulli_outcome(rng.draw_ppb(), self.detector_efficiency) {
            return Ok(false);
        }
        if !bernoulli_outcome(rng.draw_ppb(), self.detector_efficiency) {
            return Ok(false);
        }

        // Success: store one record of the pair in each node, with the
        // configured initial fidelity overriding the self-computed one.
        let bell_state = TwoQubitState::new_bell_phi_plus();
        let mut pair_a = StoredPair::new(node_b.id, bell_state, current_time);
        let mut pair_b = StoredPair::new(node_a.id, bell_state, current_time);
        pair_a.fidelity = self.initial_fidelity;
        pair_b.fidelity = self.initial_fidelity;

        if let Err(e) = node_a.store_pair(pair_a) {
            return Err(e);
        }
        if let Err(e) = node_b.store_pair(pair_b) {
            return Err(e);
        }

        Ok(true)
    }

    /// The closed-form success probability of one attempt over a channel:
    /// transmission^2 * bsm_efficiency * detector_efficiency^2.
    pub fn theoretical_success_rate(&self, channel: &QuantumChannel) -> (r: u64)
        requires
            self.wf(),
            channel.wf(),
        ensures
            r == theoretical_rate_spec(
                *self,
                channel.distance_m as nat,
                channel.attenuation_mdb_per_km as nat,
            ),
            r <= BILLION,
    {
        let p_trans = channel.success_probability();
        let both_photons = mul_ppb(p_trans, p_trans);
        let with_bsm = mul_ppb(both_photons, self.bsm_efficiency);
        let one_detector = mul_ppb(with_bsm, self.detector_efficiency);
        mul_ppb(one_detector, self.detector_efficiency)
    }
}

} // verus!
