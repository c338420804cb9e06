//! Network topologies: a static container of nodes and channels.  The
//! pre-defined shapes (linear, star, mesh) are immutable; only a custom
//! topology accepts new nodes and channels.

use crate::channel::{QuantumChannel, CHANNEL_LIMIT};
use crate::node::QuantumNode;
use vstd::prelude::*;

verus! {

/// The shape a topology was built with.
#[derive(Clone, Copy, Debug, PartialEq, Eq, Structural)]
pub enum TopologyType {
    Linear,
    Star,
    Mesh,
    Custom,
}

/// Why a topology mutation was refused.
#[derive(Clone, Copy, Debug, PartialEq, Eq, Structural)]
pub enum TopologyError {
    /// Only custom topologies may be modified.
    NotCustom { topology_type: TopologyType },
    /// A channel endpoint names a node that does not exist.
    UnknownNode { node_id: usize },
}

/// Whether a channel connects the two given nodes, in either orientation.
pub open spec fn channel_joins(c: QuantumChannel, a: int, b: int) -> bool {
    (c.node_a == a && c.node_b == b) || (c.node_a == b && c.node_b == a)
}

/// Some channel in the sequence joins the two given nodes.
pub open spec fn connected(channels: Seq<QuantumChannel>, a: int, b: int) -> bool {
    exists|c: int| 0 <= c < channels.len() && channel_joins(#[trigger] channels[c], a, b)
}

/// A network topology: nodes indexed by their position, and the channels
/// between them.
pub struct NetworkTopology {
    nodes: Vec<QuantumNode>,
    channels: Vec<QuantumChannel>,
    topology_type: TopologyType,
}

impl NetworkTopology {
    /// The nodes, indexed by id.
    pub closed spec fn nodes_spec(&self) -> Seq<QuantumNode> {
        self.nodes@
    }

    /// The channels, in insertion order.
    pub closed spec fn channels_spec(&self) -> Seq<QuantumChannel> {
        self.channels@
    }

    /// The shape this topology was built with; decides mutability.
    pub closed spec fn topology_type_spec(&self) -> TopologyType {
        self.topology_type
    }

    /// The shape this topology was built with.
    pub fn topology_type(&self) -> (t: TopologyType)
        ensures
            t == self.topology_type_spec(),
    {
        self.topology_type
    }

    /// Every node's id is its index, its memory is empty with the given
    /// capacity.
    pub open spec fn fresh_nodes(&self, num_nodes: int, memory_per_node: int) -> bool {
        &&& self.nodes_spec().len() == num_nodes
        &&& forall|i: int|
            0 <= i < num_nodes ==> {
                &&& (#[trigger] self.nodes_spec()[i]).id == i
                &&& self.nodes_spec()[i].memory_capacity == memory_per_node
                &&& self.nodes_spec()[i].pairs().len() == 0
            }
    }

    /// A linear chain: node i is connected to node i + 1, all channels
    /// alike.
    pub fn new_linear(
        num_nodes: usize,
        memory_per_node: usize,
        distance_m: u64,
        attenuation_mdb_per_km: u64,
    ) -> (t: NetworkTopology)
        requires
            num_nodes >= 2,
            distance_m <= CHANNEL_LIMIT,
            attenuation_mdb_per_km <= CHANNEL_LIMIT,
        ensures
            t.topology_type_spec() == TopologyType::Linear,
            t.fresh_nodes(num_nodes as int, memory_per_node as int),
            t.channels_spec().len() == num_nodes - 1,
            forall|i: int|
                0 <= i < num_nodes - 1 ==> {
                    &&& (#[trigger] t.channels_spec()[i]).node_a == i
                    &&& t.channels_spec()[i].node_b == i + 1
                    &&& t.channels_spec()[i].distance_m == distance_m
                    &&& t.channels_spec()[i].attenuation_mdb_per_km == attenuation_mdb_per_km
                },
    {
        let mut nodes: Vec<QuantumNode> = Vec::new();
        let mut channels: Vec<QuantumChannel> = Vec::new();
        let mut i: usize = 0;
        while i < num_nodes
            invariant
                i <= num_nodes,
                nodes@.len() == i,
                forall|j: int|
                    0 <= j < i ==> {
                        &&& (#[trigger] nodes@[j]).id == j
                        &&& nodes@[j].memory_capacity == memory_per_node
                        &&& nodes@[j].pairs().len() == 0
                    },
            decreases num_nodes - i,
        {
            nodes.push(QuantumNode::new(i, memory_per_node));
            i = i + 1;
        }
        let mut k: usize = 0;
        while k < num_nodes - 1
            invariant
                num_nodes >= 2,
                distance_m <= CHANNEL_LIMIT,
                attenuation_mdb_per_km <= CHANNEL_LIMIT,
                k <= num_nodes - 1,
                channels@.len() == k,
                forall|j: int|
                    0 <= j < k ==> {
                        &&& (#[trigger] channels@[j]).node_a == j
                        &&& channels@[j].node_b == j + 1
                        &&& channels@[j].distance_m == distance_m
                        &&& channels@[j].attenuation_mdb_per_km == attenuation_mdb_per_km
                    },
            decreases num_nodes - 1 - k,
        {
            channels.push(QuantumChannel::new(k, k + 1, distance_m, attenuation_mdb_per_km));
            k = k + 1;
        }
        NetworkTopology { nodes, channels, topology_type: TopologyType::Linear }
    }

    /// A star: node 0 in the center, connected to every other node.
    pub fn new_star(
        num_nodes: usize,
        memory_per_node: usize,
        distance_m: u64,
        attenuation_mdb_per_km: u64,
    ) -> (t: NetworkTopology)
        requires
            num_nodes >= 2,
            distance_m <= CHANNEL_LIMIT,
            attenuation_mdb_per_km <= CHANNEL_LIMIT,
        ensures
            t.topology_type_spec() == TopologyType::Star,
            t.fresh_nodes(num_nodes as int, memory_per_node as int),
            t.channels_spec().len() == num_nodes - 1,
            forall|i: int|
                0 <= i < num_nodes - 1 ==> {
                    &&& (#[trigger] t.channels_spec()[i]).node_a == 0
                    &&& t.channels_spec()[i].node_b == i + 1
                    &&& t.channels_spec()[i].distance_m == distance_m
                    &&& t.channels_spec()[i].attenuation_mdb_per_km == attenuation_mdb_per_km
                },
    {
        let mut nodes: Vec<QuantumNode> = Vec::new();
        let mut channels: Vec<QuantumChannel> = Vec::new();
        let mut i: usize = 0;
        while i < num_nodes
            invariant
                i <= num_nodes,
                nodes@.len() == i,
                forall|j: int|
                    0 <= j < i ==> {
                        &&& (#[trigger] nodes@[j]).id == j
                        &&& nodes@[j].memory_capacity == memory_per_node
                        &&& nodes@[j].pairs().len() == 0
                    },
            decreases num_nodes - i,
        {
            nodes.push(QuantumNode::new(i, memory_per_node));
            i = i + 1;
        }
        let mut k: usize = 1;
        while k < num_nodes
            invariant
                1 <= k <= num_nodes,
                num_nodes >= 2,
                distance_m <= CHANNEL_LIMIT,
                attenuation_mdb_per_km <= CHANNEL_LIMIT,
                channels@.len() == k - 1,
                forall|j: int|
                    0 <= j < k - 1 ==> {
                        &&& (#[trigger] channels@[j]).node_a == 0
                        &&& channels@[j].node_b == j + 1
                        &&& channels@[j].distance_m == distance_m
                        &&& channels@[j].attenuation_mdb_per_km == attenuation_mdb_per_km
                    },
            decreases num_nodes - k,
        {
            channels.push(QuantumChannel::new(0, k, distance_m, attenuation_mdb_per_km));
            k = k + 1;
        }
        NetworkTopology { nodes, channels, topology_type: TopologyType::Star }
    }

    /// A full mesh: every pair of nodes is connected.
    pub fn new_mesh(
        num_nodes: usize,
        memory_per_node: usize,
        distance_m: u64,
        attenuation_mdb_per_km: u64,
    ) -> (t: NetworkTopology)
        requires
            num_nodes >= 2,
            num_nodes <= 65_536,
            distance_m <= CHANNEL_LIMIT,
            attenuation_mdb_per_km <= CHANNEL_LIMIT,
        ensures
            t.topology_type_spec() == TopologyType::Mesh,
            t.fresh_nodes(num_nodes as int, memory_per_node as int),
            2 * t.channels_spec().len() == num_nodes * (num_nodes - 1),
            forall|c: int|
                0 <= c < t.channels_spec().len() ==> {
                    &&& 0 <= (#[trigger] t.channels_spec()[c]).node_a
                    &&& t.channels_spec()[c].node_a < t.channels_spec()[c].node_b
                    &&& t.channels_spec()[c].node_b < num_nodes
                    &&& t.channels_spec()[c].distance_m == distance_m
                    &&& t.channels_spec()[c].attenuation_mdb_per_km == attenuation_mdb_per_km
                },
            forall|a: int, b: int|
                0 <= a < b < num_nodes ==> #[trigger] connected(t.channels_spec(), a, b),
    {
        let mut nodes: Vec<QuantumNode> = Vec::new();
        let mut channels: Vec<QuantumChannel> = Vec::new();
        let mut i: usize = 0;
        while i < num_nodes
            invariant
                i <= num_nodes,
                nodes@.len() == i,
                forall|j: int|
                    0 <= j < i ==> {
                        &&& (#[trigger] nodes@[j]).id == j
                        &&& nodes@[j].memory_capacity == memory_per_node
                        &&& nodes@[j].pairs().len() == 0
                    },
            decreases num_nodes - i,
        {
            nodes.push(QuantumNode::new(i, memory_per_node));
            i = i + 1;
        }
        let mut a: usize = 0;
        while a < num_nodes
            invariant
                a <= num_nodes,
                num_nodes <= 65_536,
                distance_m <= CHANNEL_LIMIT,
                attenuation_mdb_per_km <= CHANNEL_LIMIT,
                2 * channels@.len() == a * (2 * num_nodes - a - 1),
                forall|c: int|
                    0 <= c < channels@.len() ==> {
                        &&& 0 <= (#[trigger] channels@[c]).node_a
                        &&& channels@[c].node_a < channels@[c].node_b
                        &&& channels@[c].node_b < num_nodes
                        &&& channels@[c].distance_m == distance_m
                        &&& channels@[c].attenuation_mdb_per_km == attenuation_mdb_per_km
                    },
                forall|x: int, y: int|
                    0 <= x < a && x < y < num_nodes ==> #[trigger] connected(channels@, x, y),
            decreases num_nodes - a,
        {
            let mut b: usize = a + 1;
            while b < num_nodes
                invariant
                    a < b <= num_nodes,
                    a < num_nodes,
                    num_nodes <= 65_536,
                    distance_m <= CHANNEL_LIMIT,
                    attenuation_mdb_per_km <= CHANNEL_LIMIT,
                    2 * channels@.len() == a * (2 * num_nodes - a - 1) + 2 * (b - a - 1),
                    forall|c: int|
                        0 <= c < channels@.len() ==> {
                            &&& 0 <= (#[trigger] channels@[c]).node_a
                            &&& channels@[c].node_a < channels@[c].node_b
                            &&& channels@[c].node_b < num_nodes
                            &&& channels@[c].distance_m == distance_m
                            &&& channels@[c].attenuation_mdb_per_km == attenuation_mdb_per_km
                        },
                    forall|x: int, y: int|
                        0 <= x < a && x < y < num_nodes ==> #[trigger] connected(channels@, x, y),
                    forall|y: int|
                        a < y < b ==> #[trigger] connected(channels@, a as int, y),
                decreases num_nodes - b,
            {
                let ghost pre = channels@;
                channels.push(QuantumChannel::new(a, b, distance_m, attenuation_mdb_per_km));
                proof {
                    assert forall|x: int, y: int| 0 <= x < a && x < y < num_nodes
                        implies #[trigger] connected(channels@, x, y) by {
                        assert(connected(pre, x, y));
                        let c = choose|c: int|
                            0 <= c < pre.len() && channel_joins(#[trigger] pre[c], x, y);
                        assert(channel_joins(channels@[c], x, y));
                    }
                    assert forall|y: int| a < y < b + 1
                        implies #[trigger] connected(channels@, a as int, y) by {
                        if y < b {
                            assert(connected(pre, a as int, y));
                            let c = choose|c: int|
                                0 <= c < pre.len() && channel_joins(#[trigger] pre[c], a as int, y);
                            assert(channel_joins(channels@[c], a as int, y));
                        } else {
                            assert(channel_joins(channels@[pre.len() as int], a as int, y));
                        }
                    }
                }
                b = b + 1;
            }
            proof {
                assert(2 * channels@.len() == (a + 1) * (2 * num_nodes - a - 2))
                    by (nonlinear_arith)
                    requires
                        2 * channels@.len() == a * (2 * num_nodes - a as int - 1) + 2 * (
                        num_nodes - a as int - 1),
                        0 <= a < num_nodes;
            }
            a = a + 1;
        }
        proof {
            assert(num_nodes as int * (2 * num_nodes - num_nodes as int - 1)
                == num_nodes as int * (num_nodes as int - 1)) by (nonlinear_arith);
        }
        NetworkTopology { nodes, channels, topology_type: TopologyType::Mesh }
    }

    /// An empty custom topology: nodes and channels are added manually.
    pub fn new_custom() -> (t: NetworkTopology)
        ensures
            t.topology_type_spec() == TopologyType::Custom,
            t.nodes_spec() == Seq::<QuantumNode>::empty(),
            t.channels_spec() == Seq::<QuantumChannel>::empty(),
    {
        NetworkTopology {
            nodes: Vec::new(),
            channels: Vec::new(),
            topology_type: TopologyType::Custom,
        }
    }

    /// Add a node; refused unless the topology is custom.
    pub fn add_node(&mut self, node: QuantumNode) -> (r: Result<(), TopologyError>)
        ensures
            final(self).topology_type_spec() == old(self).topology_type_spec(),
            final(self).channels_spec() == old(self).channels_spec(),
            old(self).topology_type_spec() == TopologyType::Custom ==> r is Ok
                && final(self).nodes_spec() == old(self).nodes_spec().push(node),
            old(self).topology_type_spec() != TopologyType::Custom ==> r == Err::<(), TopologyError>(
                TopologyError::NotCustom { topology_type: old(self).topology_type_spec() },
            ) && final(self).nodes_spec() == old(self).nodes_spec(),
    {
        if self.topology_type != TopologyType::Custom {
            return Err(TopologyError::NotCustom { topology_type: self.topology_type });
        }
        self.nodes.push(node);
        Ok(())
    }

    /// Add a channel; refused unless the topology is custom and both
    /// endpoints exist.
    pub fn add_channel(&mut self, channel: QuantumChannel) -> (r: Result<(), TopologyError>)
        ensures
            final(self).topology_type_spec() == old(self).topology_type_spec(),
            final(self).nodes_spec() == old(self).nodes_spec(),
            old(self).topology_type_spec() != TopologyType::Custom ==> r == Err::<(), TopologyError>(
                TopologyError::NotCustom { topology_type: old(self).topology_type_spec() },
            ) && final(self).channels_spec() == old(self).channels_spec(),
            old(self).topology_type_spec() == TopologyType::Custom
                && channel.node_a >= old(self).nodes_spec().len()
                ==> r == Err::<(), TopologyError>(
                    TopologyError::UnknownNode { node_id: channel.node_a },
                ) && final(self).channels_spec() == old(self).channels_spec(),
            old(self).topology_type_spec() == TopologyType::Custom
                && channel.node_a < old(self).nodes_spec().len()
                && channel.node_b >= old(self).nodes_spec().len()
                ==> r == Err::<(), TopologyError>(
                    TopologyError::UnknownNode { node_id: channel.node_b },
                ) && final(self).channels_spec() == old(self).channels_spec(),
            old(self).topology_type_spec() == TopologyType::Custom
                && channel.node_a < old(self).nodes_spec().len()
                && channel.node_b < old(self).nodes_spec().len()
                ==> r is Ok
                    && final(self).channels_spec() == old(self).channels_spec().push(channel),
    {
        if self.topology_type != TopologyType::Custom {
            return Err(TopologyError::NotCustom { topology_type: self.topology_type });
        }
        if self.nodes.len() <= channel.node_a {
            return Err(TopologyError::UnknownNode { node_id: channel.node_a });
        }
        if self.nodes.len() <= channel.node_b {
            return Err(TopologyError::UnknownNode { node_id: channel.node_b });
        }
        self.channels.push(channel);
        Ok(())
    }

    /// A node by id, if it exists.
    pub fn get_node(&self, id: usize) -> (r: Option<&QuantumNode>)
        ensures
            id < self.nodes_spec().len() ==> r is Some && *r->Some_0 == self.nodes_spec()[
                id as int
            ],
            id >= self.nodes_spec().len() ==> r is None,
    {
        if id < self.nodes.len() {
            Some(&self.nodes[id])
        } else {
            None
        }
    }

    /// Mutable access to a node's state (its stored pairs), not to the
    /// topology structure.
    pub fn get_node_mut(&mut self, id: usize) -> (r: Option<&mut QuantumNode>)
        ensures
            final(self).topology_type_spec() == old(self).topology_type_spec(),
            final(self).channels_spec() == old(self).channels_spec(),
            id < old(self).nodes_spec().len() ==> r is Some
                && *r->Some_0 == old(self).nodes_spec()[id as int]
                && final(self).nodes_spec()
                    == old(self).nodes_spec().update(id as int, *final(r->Some_0)),
            id >= old(self).nodes_spec().len() ==> r is None
                && final(self).nodes_spec() == old(self).nodes_spec(),
    {
        if id < self.nodes.len() {
            Some(&mut self.nodes[id])
        } else {
            None
        }
    }

    /// All nodes.
    pub fn nodes(&self) -> (r: &Vec<QuantumNode>)
        ensures
            r@ == self.nodes_spec(),
    {
        &self.nodes
    }

    /// All channels.
    pub fn channels(&self) -> (r: &Vec<QuantumChannel>)
        ensures
            r@ == self.channels_spec(),
    {
        &self.channels
    }

    /// The first channel joining the two given nodes, in either
    /// orientation, if any.
    pub fn find_channel(&self, node_a: usize, node_b: usize) -> (r: Option<&QuantumChannel>)
        ensures
            r is Some ==> exists|c: int|
                0 <= c < self.channels_spec().len() && *r->Some_0 == self.channels_spec()[c]
                    && channel_joins(self.channels_spec()[c], node_a as int, node_b as int),
            r is None ==> forall|c: int|
                0 <= c < self.channels_spec().len() ==> !channel_joins(
                    #[trigger] self.channels_spec()[c],
                    node_a as int,
                    node_b as int,
                ),
    {
        let mut i: usize = 0;
        while i < self.channels.len()
            invariant
                i <= self.channels_spec().len(),
                forall|c: int|
                    0 <= c < i ==> !channel_joins(
                        #[trigger] self.channels_spec()[c],
                        node_a as int,
                        node_b as int,
                    ),
            decreases self.channels_spec().len() - i,
        {
            let ch = &self.channels[i];
            if (ch.node_a == node_a && ch.node_b == node_b) || (ch.node_a == node_b && ch.node_b
                == node_a) {
                return Some(ch);
            }
            i = i + 1;
        }
        None
    }

    /// How many nodes the network has.
    pub fn num_nodes(&self) -> (n: usize)
        ensures
            n == self.nodes_spec().len(),
    {
        self.nodes.len()
    }

    /// How many channels the network has.
    pub fn num_channels(&self) -> (n: usize)
        ensures
            n == self.channels_spec().len(),
    {
        self.channels.len()
    }

    /// Whether a node with this id exists.
    pub fn has_node(&self, id: usize) -> (b: bool)
        ensures
            b == (id < self.nodes_spec().len()),
    {
        id < self.nodes.len()
    }
}

} // verus!
