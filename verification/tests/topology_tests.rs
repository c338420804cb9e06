use qnetsim::channel::QuantumChannel;
use qnetsim::node::QuantumNode;
use qnetsim::topology::{NetworkTopology, TopologyError, TopologyType};

// ===== LINEAR TOPOLOGY TESTS =====

#[test]
fn test_linear_2_nodes() {
    let network = NetworkTopology::new_linear(2, 10, 10_000, 200);
    assert_eq!(network.topology_type(), TopologyType::Linear);
    assert_eq!(network.num_nodes(), 2);
    assert_eq!(network.num_channels(), 1);
    assert!(network.find_channel(0, 1).is_some());
}

#[test]
fn test_linear_3_nodes() {
    let network = NetworkTopology::new_linear(3, 10, 10_000, 200);
    assert_eq!(network.num_nodes(), 3);
    assert_eq!(network.num_channels(), 2);

    // Adjacent nodes are connected, the ends are not.
    assert!(network.find_channel(0, 1).is_some());
    assert!(network.find_channel(1, 2).is_some());
    assert!(network.find_channel(0, 2).is_none());
}

#[test]
fn test_linear_immutable() {
    let mut network = NetworkTopology::new_linear(2, 10, 10_000, 200);
    let new_node = QuantumNode::new(2, 10);

    let result = network.add_node(new_node);
    assert!(result.is_err());
    assert_eq!(
        result.unwrap_err(),
        TopologyError::NotCustom { topology_type: TopologyType::Linear }
    );
}

// ===== STAR TOPOLOGY TESTS =====

#[test]
fn test_star_3_nodes() {
    let network = NetworkTopology::new_star(3, 10, 10_000, 200);
    assert_eq!(network.topology_type(), TopologyType::Star);
    assert_eq!(network.num_nodes(), 3);
    assert_eq!(network.num_channels(), 2);

    // Center (0) connected to all others.
    assert!(network.find_channel(0, 1).is_some());
    assert!(network.find_channel(0, 2).is_some());

    // Periphery nodes not connected to each other.
    assert!(network.find_channel(1, 2).is_none());
}

#[test]
fn test_star_5_nodes() {
    let network = NetworkTopology::new_star(5, 10, 10_000, 200);
    assert_eq!(network.num_nodes(), 5);
    assert_eq!(network.num_channels(), 4);
}

// ===== MESH TOPOLOGY TESTS =====

#[test]
fn test_mesh_3_nodes() {
    let network = NetworkTopology::new_mesh(3, 10, 10_000, 200);
    assert_eq!(network.topology_type(), TopologyType::Mesh);
    assert_eq!(network.num_nodes(), 3);
    assert_eq!(network.num_channels(), 3);

    assert!(network.find_channel(0, 1).is_some());
    assert!(network.find_channel(0, 2).is_some());
    assert!(network.find_channel(1, 2).is_some());
}

#[test]
fn test_mesh_4_nodes() {
    let network = NetworkTopology::new_mesh(4, 10, 10_000, 200);
    assert_eq!(network.num_nodes(), 4);
    // n*(n-1)/2 = 4*3/2 = 6 channels
    assert_eq!(network.num_channels(), 6);
}

// ===== CUSTOM TOPOLOGY TESTS =====

#[test]
fn test_custom_empty() {
    let network = NetworkTopology::new_custom();
    assert_eq!(network.topology_type(), TopologyType::Custom);
    assert_eq!(network.num_nodes(), 0);
    assert_eq!(network.num_channels(), 0);
}

#[test]
fn test_custom_add_nodes() {
    let mut network = NetworkTopology::new_custom();

    network.add_node(QuantumNode::new(0, 10)).unwrap();
    network.add_node(QuantumNode::new(1, 10)).unwrap();

    assert_eq!(network.num_nodes(), 2);
}

#[test]
fn test_custom_add_channel() {
    let mut network = NetworkTopology::new_custom();

    network.add_node(QuantumNode::new(0, 10)).unwrap();
    network.add_node(QuantumNode::new(1, 10)).unwrap();

    let channel = QuantumChannel::new(0, 1, 10_000, 200);
    network.add_channel(channel).unwrap();

    assert_eq!(network.num_channels(), 1);
}

#[test]
fn test_custom_invalid_channel() {
    let mut network = NetworkTopology::new_custom();
    network.add_node(QuantumNode::new(0, 10)).unwrap();

    // Try to add a channel to a non-existent node.
    let channel = QuantumChannel::new(0, 1, 10_000, 200);
    let result = network.add_channel(channel);

    assert!(result.is_err());
    assert_eq!(result.unwrap_err(), TopologyError::UnknownNode { node_id: 1 });
}

// ===== GENERAL ACCESS TESTS =====

#[test]
fn test_get_node() {
    let network = NetworkTopology::new_linear(3, 10, 10_000, 200);

    assert!(network.get_node(0).is_some());
    assert!(network.get_node(1).is_some());
    assert!(network.get_node(2).is_some());
    assert!(network.get_node(3).is_none());
}

#[test]
fn test_get_node_mut() {
    let mut network = NetworkTopology::new_linear(2, 10, 10_000, 200);

    // Node state can be modified even in pre-defined topologies.
    let node = network.get_node_mut(0).unwrap();
    assert_eq!(node.id, 0);
    assert_eq!(node.memory_capacity, 10);
}

#[test]
fn test_has_node() {
    let network = NetworkTopology::new_linear(2, 10, 10_000, 200);
    assert!(network.has_node(0));
    assert!(network.has_node(1));
    assert!(!network.has_node(2));
}

#[test]
fn test_nodes_and_channels_access() {
    let network = NetworkTopology::new_star(4, 2, 5_000, 300);
    assert_eq!(network.nodes().len(), 4);
    assert_eq!(network.channels().len(), 3);
    for (i, node) in network.nodes().iter().enumerate() {
        assert_eq!(node.id, i);
        assert_eq!(node.memory_capacity, 2);
    }
    for channel in network.channels().iter() {
        assert_eq!(channel.node_a, 0);
        assert_eq!(channel.distance_m, 5_000);
        assert_eq!(channel.attenuation_mdb_per_km, 300);
    }
}
