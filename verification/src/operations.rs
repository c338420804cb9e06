//! Simple network-level entanglement generation: one Bernoulli trial on
//! the channel, then a Bell pair stored in both nodes.

use crate::channel::QuantumChannel;
use crate::node::{CapacityError, QuantumNode, StoredPair};
use crate::numeric::BILLION;
use crate::rng::SimRng;
use crate::state::{fidelity_spec, TwoQubitState};
use vstd::prelude::*;

verus! {

/// Attempt to generate an entangled pair between two nodes.
///
/// Three-way outcome: `Err` when a node's memory is full at entry (the
/// first full node is reported and nothing changes), `Ok(false)` when the
/// channel trial failed (nothing changes), `Ok(true)` when a Bell pair
/// was stored in both nodes.
pub fn attempt_entanglement_generation(
    node_a: &mut QuantumNode,
    node_b: &mut QuantumNode,
    channel: &QuantumChannel,
    current_time: u64,
    rng: &mut SimRng,
) -> (r: Result<bool, CapacityError>)
    requires
        channel.wf(),
    ensures
        final(node_a).id == old(node_a).id,
        final(node_a).memory_capacity == old(node_a).memory_capacity,
        final(node_b).id == old(node_b).id,
        final(node_b).memory_capacity == old(node_b).memory_capacity,
        r is Err <==> old(node_a).pairs().len() >= old(node_a).memory_capacity
            || old(node_b).pairs().len() >= old(node_b).memory_capacity,
        r is Err ==> {
            &&& final(node_a).pairs() == old(node_a).pairs()
            &&& final(node_b).pairs() == old(node_b).pairs()
            &&& if old(node_a).pairs().len() >= old(node_a).memory_capacity {
                r->Err_0 == (CapacityError {
                    node_id: old(node_a).id,
                    occupancy: old(node_a).pairs().len() as usize,
                    capacity: old(node_a).memory_capacity,
                })
            } else {
                r->Err_0 == (CapacityError {
                    node_id: old(node_b).id,
                    occupancy: old(node_b).pairs().len() as usize,
                    capacity: old(node_b).memory_capacity,
                })
            }
        },
        r is Ok && !r->Ok_0 ==> final(node_a).pairs() == old(node_a).pairs()
            && final(node_b).pairs() == old(node_b).pairs(),
        r is Ok && r->Ok_0 ==> {
            &&& final(node_a).pairs() == old(node_a).pairs().push(final(node_a).pairs().last())
            &&& final(node_b).pairs() == old(node_b).pairs().push(final(node_b).pairs().last())
            &&& final(node_a).pairs().last().partner_node_id == old(node_b).id
            &&& final(node_b).pairs().last().partner_node_id == old(node_a).id
            &&& final(node_a).pairs().last().state == TwoQubitState::bell_phi_plus_spec()
            &&& final(node_b).pairs().last().state == TwoQubitState::bell_phi_plus_spec()
            &&& final(node_a).pairs().last().creation_time == current_time
            &&& final(node_b).pairs().last().creation_time == current_time
            &&& final(node_a).pairs().last().fidelity == fidelity_spec(
                TwoQubitState::bell_phi_plus_spec(),
                TwoQubitState::bell_phi_plus_spec(),
            )
            &&& final(node_b).pairs().last().fidelity == final(node_a).pairs().last().fidelity
        },
        r is Ok && channel.success_probability_spec() == BILLION ==> r->Ok_0,
        r is Ok && channel.success_probability_spec() == 0 ==> !r->Ok_0,
{
    if !node_a.has_memory_available() {
        return Err(CapacityError {
            node_id: node_a.id,
            occupancy: node_a.num_stored_pairs(),
            capacity: node_a.memory_capacity,
        });
    }
    if !node_b.has_memory_available() {
        return Err(CapacityError {
            node_id: node_b.id,
            occupancy: node_b.num_stored_pairs(),
            capacity: node_b.memory_capacity,
        });
    }

    let success = channel.attempt_generation(rng);

    if success {
        let bell_state = TwoQubitState::new_bell_phi_plus();
        let pair_a = StoredPair::new(node_b.id, bell_state, current_time);
        let pair_b = StoredPair::new(node_a.id, bell_state, current_time);

        if let Err(e) = node_a.store_pair(pair_a) {
            return Err(e);
        }
        if let Err(e) = node_b.store_pair(pair_b) {
            return Err(e);
        }
        Ok(true)
    } else {
        Ok(false)
    }
}

/// Counters for entanglement-generation experiments.
#[derive(Clone, Copy, Debug, PartialEq, Eq, Structural)]
pub struct GenerationStats {
    pub attempts: usize,
    pub successes: usize,
    pub channel_failures: usize,
    pub memory_full_errors: usize,
}

impl GenerationStats {
    /// Fresh counters, all zero.
    pub fn new() -> (s: GenerationStats)
        ensures
            s.attempts == 0,
            s.successes == 0,
            s.channel_failures == 0,
            s.memory_full_errors == 0,
    {
        GenerationStats { attempts: 0, successes: 0, channel_failures: 0, memory_full_errors: 0 }
    }

    /// The observed success rate in parts per billion; 0 before any
    /// attempt.
    pub fn success_rate(&self) -> (r: u64)
        requires
            self.successes <= self.attempts,
        ensures
            self.attempts == 0 ==> r == 0,
            self.attempts > 0 ==> r == (self.successes * BILLION) / (self.attempts as int),
            r <= BILLION,
    {
        if self.attempts == 0 {
            0
        } else {
            proof {
                vstd::arithmetic::mul::lemma_mul_inequality(
                    self.successes as int,
                    self.attempts as int,
                    BILLION as int,
                );
                assert(self.successes as int * BILLION as int
                    == BILLION as int * self.successes as int) by (nonlinear_arith);
                assert(self.attempts as int * BILLION as int
                    == BILLION as int * self.attempts as int) by (nonlinear_arith);
                vstd::arithmetic::div_mod::lemma_div_is_ordered(
                    self.successes as int * BILLION as int,
                    self.attempts as int * BILLION as int,
                    self.attempts as int,
                );
                vstd::arithmetic::div_mod::lemma_div_by_multiple(
                    BILLION as int,
                    self.attempts as int,
                );
                assert(BILLION as int * self.attempts as int
                    == self.attempts as int * BILLION as int) by (nonlinear_arith);
            }
            ((self.successes as u128 * BILLION as u128) / (self.attempts as u128)) as u64
        }
    }
}

impl Default for GenerationStats {
    /// Fresh counters, all zero.
    fn default() -> (s: GenerationStats)
        ensures
            s.attempts == 0,
            s.successes == 0,
            s.channel_failures == 0,
            s.memory_full_errors == 0,
    {
        GenerationStats::new()
    }
}

} // verus!
