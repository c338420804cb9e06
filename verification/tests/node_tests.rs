use qnetsim::node::{QuantumNode, StoredPair};
use qnetsim::state::TwoQubitState;

#[test]
fn test_node_creation() {
    let node = QuantumNode::new(0, 10);
    assert_eq!(node.id, 0);
    assert_eq!(node.memory_capacity, 10);
    assert_eq!(node.num_stored_pairs(), 0);
    assert!(node.has_memory_available());
}

#[test]
fn test_memory_tracking() {
    let node = QuantumNode::new(0, 2);
    assert_eq!(node.free_memory(), 2);
    assert!(node.has_memory_available());
}

#[test]
fn test_store_pair() {
    let mut node = QuantumNode::new(0, 2);

    let bell_state = TwoQubitState::new_bell_phi_plus();
    let pair = StoredPair::new(1, bell_state, 0);

    assert!(node.store_pair(pair).is_ok());
    assert_eq!(node.num_stored_pairs(), 1);
    assert_eq!(node.free_memory(), 1);
}

#[test]
fn node_test_memory_full() {
    let mut node = QuantumNode::new(0, 1);

    let bell_state = TwoQubitState::new_bell_phi_plus();
    let pair1 = StoredPair::new(1, bell_state, 0);
    let pair2 = StoredPair::new(2, bell_state, 0);

    assert!(node.store_pair(pair1).is_ok());
    assert!(!node.has_memory_available());

    let result = node.store_pair(pair2);
    assert!(result.is_err());
}

#[test]
fn test_capacity_error_reports_occupancy() {
    let mut node = QuantumNode::new(3, 1);
    let bell_state = TwoQubitState::new_bell_phi_plus();
    node.store_pair(StoredPair::new(1, bell_state, 0)).unwrap();

    let err = node.store_pair(StoredPair::new(2, bell_state, 0)).unwrap_err();
    assert_eq!(err.node_id, 3);
    assert_eq!(err.occupancy, 1);
    assert_eq!(err.capacity, 1);
    // The failed store must not change the stored count.
    assert_eq!(node.num_stored_pairs(), 1);
}

#[test]
fn test_find_pair() {
    let mut node = QuantumNode::new(0, 5);

    let bell_state = TwoQubitState::new_bell_phi_plus();
    let pair1 = StoredPair::new(1, bell_state, 0);
    let pair2 = StoredPair::new(2, bell_state, 0);

    node.store_pair(pair1).unwrap();
    node.store_pair(pair2).unwrap();

    assert!(node.find_pair_with(1).is_some());
    assert!(node.find_pair_with(2).is_some());
    assert!(node.find_pair_with(3).is_none());
}

#[test]
fn test_remove_pair() {
    let mut node = QuantumNode::new(0, 5);

    let bell_state = TwoQubitState::new_bell_phi_plus();
    let pair = StoredPair::new(1, bell_state, 0);

    node.store_pair(pair).unwrap();
    assert_eq!(node.num_stored_pairs(), 1);

    let removed = node.remove_pair_with(1);
    assert!(removed.is_some());
    assert_eq!(removed.unwrap().partner_node_id, 1);
    assert_eq!(node.num_stored_pairs(), 0);
}

#[test]
fn test_remove_missing_partner() {
    let mut node = QuantumNode::new(0, 5);
    let bell_state = TwoQubitState::new_bell_phi_plus();
    node.store_pair(StoredPair::new(1, bell_state, 0)).unwrap();

    assert!(node.remove_pair_with(9).is_none());
    assert_eq!(node.num_stored_pairs(), 1);
}

#[test]
fn test_stored_pair_fidelity() {
    let bell_state = TwoQubitState::new_bell_phi_plus();
    let pair = StoredPair::new(1, bell_state, 0);

    // A perfect Bell state has fidelity 1.0 up to the fixed-point
    // rounding of its amplitudes.
    assert!((pair.fidelity as i64 - 1_000_000_000).abs() <= 200_000);
    assert_eq!(pair.fidelity, 999_995_580);
}

#[test]
fn test_clear_memory() {
    let mut node = QuantumNode::new(0, 5);

    let bell_state = TwoQubitState::new_bell_phi_plus();
    node.store_pair(StoredPair::new(1, bell_state, 0)).unwrap();
    node.store_pair(StoredPair::new(2, bell_state, 0)).unwrap();

    assert_eq!(node.num_stored_pairs(), 2);

    node.clear_memory();
    assert_eq!(node.num_stored_pairs(), 0);
    assert_eq!(node.free_memory(), 5);
}
