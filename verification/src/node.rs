//! Quantum network nodes: bounded memory of stored entangled pairs with
//! strict capacity enforcement.

use crate::state::{fidelity_spec, TwoQubitState};
use vstd::prelude::*;

verus! {

/// A stored-pair insertion failed because the node's memory is full.
#[derive(Clone, Copy, Debug, PartialEq, Eq, Structural)]
pub struct CapacityError {
    /// The node whose memory is full.
    pub node_id: usize,
    /// How many pairs that node holds.
    pub occupancy: usize,
    /// The node's fixed capacity.
    pub capacity: usize,
}

/// An entangled pair held in one node's memory.  The two records of one
/// physical pair (one per node) are independent owned copies.
#[derive(Clone, Copy, Debug)]
pub struct StoredPair {
    /// The partner node this pair is entangled with.
    pub partner_node_id: usize,
    /// The owned two-qubit state.
    pub state: TwoQubitState,
    /// When this pair was created, in ticks.
    pub creation_time: u64,
    /// Current fidelity in parts per billion; aged explicitly by the
    /// caller through decoherence, never recomputed from the state.
    pub fidelity: u64,
}

impl StoredPair {
    /// A fresh record: its fidelity is the overlap of the given state with
    /// the ideal Bell state.
    pub fn new(partner_node_id: usize, state: TwoQubitState, creation_time: u64)
        -> (p: StoredPair)
        requires
            state.in_range(),
        ensures
            p.partner_node_id == partner_node_id,
            p.state == state,
            p.creation_time == creation_time,
            p.fidelity == fidelity_spec(state, TwoQubitState::bell_phi_plus_spec()),
    {
        let ideal = TwoQubitState::new_bell_phi_plus();
        let fidelity = state.fidelity(&ideal);
        StoredPair { partner_node_id, state, creation_time, fidelity }
    }
}

/// A quantum network node (processor or repeater) with a fixed memory
/// capacity; insertion beyond capacity fails, never truncates.
pub struct QuantumNode {
    /// Unique identifier of this node.
    pub id: usize,
    /// Maximum number of pairs this node can store, fixed at construction.
    pub memory_capacity: usize,
    /// Currently stored entangled pairs.
    pub stored_pairs: Vec<StoredPair>,
}

impl QuantumNode {
    /// The stored pairs, in insertion order.
    pub open spec fn pairs(&self) -> Seq<StoredPair> {
        self.stored_pairs@
    }

    /// A new node with empty memory.
    pub fn new(id: usize, memory_capacity: usize) -> (n: QuantumNode)
        ensures
            n.id == id,
            n.memory_capacity == memory_capacity,
            n.pairs() == Seq::<StoredPair>::empty(),
    {
        QuantumNode { id, memory_capacity, stored_pairs: Vec::new() }
    }

    /// Whether at least one memory slot is free.
    pub fn has_memory_available(&self) -> (b: bool)
        ensures
            b == (self.pairs().len() < self.memory_capacity),
    {
        self.stored_pairs.len() < self.memory_capacity
    }

    /// How many memory slots are free.
    pub fn free_memory(&self) -> (n: usize)
        ensures
            self.pairs().len() <= self.memory_capacity ==> n == self.memory_capacity
                - self.pairs().len(),
            self.pairs().len() > self.memory_capacity ==> n == 0,
    {
        if self.stored_pairs.len() <= self.memory_capacity {
            self.memory_capacity - self.stored_pairs.len()
        } else {
            0
        }
    }

    /// Store a pair: appends and succeeds whenever a slot is free, and
    /// fails with a capacity error, changing nothing, when the node is
    /// full.
    pub fn store_pair(&mut self, pair: StoredPair) -> (r: Result<(), CapacityError>)
        ensures
            final(self).id == old(self).id,
            final(self).memory_capacity == old(self).memory_capacity,
            old(self).pairs().len() < old(self).memory_capacity ==> r is Ok
                && final(self).pairs() == old(self).pairs().push(pair),
            old(self).pairs().len() >= old(self).memory_capacity ==> r is Err
                && final(self).pairs() == old(self).pairs()
                && r->Err_0 == (CapacityError {
                    node_id: old(self).id,
                    occupancy: old(self).pairs().len() as usize,
                    capacity: old(self).memory_capacity,
                }),
    {
        if self.stored_pairs.len() >= self.memory_capacity {
            return Err(CapacityError {
                node_id: self.id,
                occupancy: self.stored_pairs.len(),
                capacity: self.memory_capacity,
            });
        }
        self.stored_pairs.push(pair);
        Ok(())
    }

    /// The position of the first stored pair entangled with the given
    /// partner, if any.
    pub fn find_pair_with(&self, partner_id: usize) -> (r: Option<usize>)
        ensures
            r is Some ==> {
                &&& r->Some_0 < self.pairs().len()
                &&& self.pairs()[r->Some_0 as int].partner_node_id == partner_id
                &&& forall|j: int|
                    0 <= j < r->Some_0 ==> #[trigger] self.pairs()[j].partner_node_id
                        != partner_id
            },
            r is None ==> forall|j: int|
                0 <= j < self.pairs().len() ==> #[trigger] self.pairs()[j].partner_node_id
                    != partner_id,
    {
        let mut i: usize = 0;
        while i < self.stored_pairs.len()
            invariant
                i <= self.pairs().len(),
                forall|j: int|
                    0 <= j < i ==> #[trigger] self.pairs()[j].partner_node_id != partner_id,
            decreases self.pairs().len() - i,
        {
            if self.stored_pairs[i].partner_node_id == partner_id {
                return Some(i);
            }
            i = i + 1;
        }
        None
    }

    /// Atomically find and remove the first stored pair entangled with the
    /// given partner, returning it; `None`, changing nothing, if there is
    /// none.
    pub fn remove_pair_with(&mut self, partner_id: usize) -> (r: Option<StoredPair>)
        ensures
            final(self).id == old(self).id,
            final(self).memory_capacity == old(self).memory_capacity,
            r is Some ==> exists|i: int|
                {
                    &&& 0 <= i < old(self).pairs().len()
                    &&& old(self).pairs()[i].partner_node_id == partner_id
                    &&& (forall|j: int|
                        0 <= j < i ==> #[trigger] old(self).pairs()[j].partner_node_id
                            != partner_id)
                    &&& r->Some_0 == old(self).pairs()[i]
                    &&& final(self).pairs() == old(self).pairs().remove(i)
                },
            r is None ==> final(self).pairs() == old(self).pairs() && forall|j: int|
                0 <= j < old(self).pairs().len()
                    ==> #[trigger] old(self).pairs()[j].partner_node_id != partner_id,
    {
        let found = self.find_pair_with(partner_id);
        if let Some(index) = found {
            let pair = self.stored_pairs.remove(index);
            proof {
                assert(old(self).pairs()[index as int] == pair);
            }
            Some(pair)
        } else {
            None
        }
    }

    /// Remove all stored pairs unconditionally.
    pub fn clear_memory(&mut self)
        ensures
            final(self).id == old(self).id,
            final(self).memory_capacity == old(self).memory_capacity,
            final(self).pairs() == Seq::<StoredPair>::empty(),
    {
        self.stored_pairs.clear();
    }

    /// How many pairs are stored.
    pub fn num_stored_pairs(&self) -> (n: usize)
        ensures
            n == self.pairs().len(),
    {
        self.stored_pairs.len()
    }
}

} // verus!
