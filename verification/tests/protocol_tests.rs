use qnetsim::barrett_kok::BarrettKokProtocol;
use qnetsim::channel::QuantumChannel;
use qnetsim::node::QuantumNode;
use qnetsim::numeric::BILLION;
use qnetsim::rng::SimRng;

#[test]
fn test_theoretical_rate() {
    let protocol = BarrettKokProtocol::sequence_parameters();
    let channel = QuantumChannel::new(0, 1, 10_000, 200);

    let rate = protocol.theoretical_success_rate(&channel);
    assert!(rate > 0 && rate < BILLION);
}

#[test]
fn test_theoretical_rate_exact() {
    // transmission^2 * bsm * detector^2 at 10 km of 0.2 dB/km fiber.
    let protocol = BarrettKokProtocol::sequence_parameters();
    let channel = QuantumChannel::new(0, 1, 10_000, 200);
    assert_eq!(protocol.theoretical_success_rate(&channel), 161_254_764);
}

#[test]
fn test_empirical_rate_matches_theory() {
    // The observed success frequency over many attempts at a fixed
    // distance stays within a few percent of the closed-form rate.
    let protocol = BarrettKokProtocol::sequence_parameters();
    let channel = QuantumChannel::new(0, 1, 10_000, 200);
    let theory = protocol.theoretical_success_rate(&channel) as f64 / 1e9;
    let mut rng = SimRng::from_seed(2024);

    let attempts = 10_000;
    let mut successes = 0;
    for _ in 0..attempts {
        let mut a = QuantumNode::new(0, 1);
        let mut b = QuantumNode::new(1, 1);
        if protocol.attempt_generation(&mut a, &mut b, &channel, 0, &mut rng).unwrap() {
            successes += 1;
        }
    }
    let empirical = successes as f64 / attempts as f64;
    assert!((empirical - theory).abs() < 0.02, "empirical {} theory {}", empirical, theory);
}

#[test]
fn test_reference_parameters_at_zero_distance() {
    // With transmission 1 the rate is bsm * detector^2:
    // 0.5 * 0.9 * 0.9 = 0.405, exactly in fixed point.
    let protocol = BarrettKokProtocol::sequence_parameters();
    let channel = QuantumChannel::new(0, 1, 0, 0);
    assert_eq!(protocol.theoretical_success_rate(&channel), 405_000_000);

    let mut rng = SimRng::from_seed(31);
    let attempts = 20_000;
    let mut successes = 0;
    for _ in 0..attempts {
        let mut a = QuantumNode::new(0, 1);
        let mut b = QuantumNode::new(1, 1);
        if protocol.attempt_generation(&mut a, &mut b, &channel, 0, &mut rng).unwrap() {
            successes += 1;
        }
    }
    let empirical = successes as f64 / attempts as f64;
    assert!((empirical - 0.405).abs() < 0.015, "empirical {}", empirical);
}

#[test]
fn test_attempt_against_full_node_is_capacity_failure() {
    // A full node always yields the capacity failure, never a
    // probabilistic outcome.
    let protocol = BarrettKokProtocol::sequence_parameters();
    let channel = QuantumChannel::new(0, 1, 0, 0);
    let mut rng = SimRng::from_seed(5);

    let mut node_a = QuantumNode::new(0, 0);  // zero capacity
    let mut node_b = QuantumNode::new(1, 10);
    for _ in 0..50 {
        let result =
            protocol.attempt_generation(&mut node_a, &mut node_b, &channel, 0, &mut rng);
        let err = result.unwrap_err();
        assert_eq!(err.node_id, 0);
        assert_eq!(err.occupancy, 0);
        assert_eq!(err.capacity, 0);
    }
    assert_eq!(node_b.num_stored_pairs(), 0);
}

#[test]
fn test_two_capacity_one_nodes() {
    // First attempt over a lossless channel with an ideal protocol
    // succeeds and stores one pair in each node; the second is a
    // capacity failure.
    let protocol = BarrettKokProtocol::new(BILLION, BILLION, 0, 950_000_000, BILLION);
    let channel = QuantumChannel::new(0, 1, 0, 0);
    let mut rng = SimRng::from_seed(6);

    let mut node_a = QuantumNode::new(0, 1);
    let mut node_b = QuantumNode::new(1, 1);

    let first = protocol.attempt_generation(&mut node_a, &mut node_b, &channel, 0, &mut rng);
    assert_eq!(first.unwrap(), true);
    assert_eq!(node_a.num_stored_pairs(), 1);
    assert_eq!(node_b.num_stored_pairs(), 1);

    let second = protocol.attempt_generation(&mut node_a, &mut node_b, &channel, 1, &mut rng);
    assert!(second.is_err());
    assert_eq!(second.unwrap_err().node_id, 0);
}

#[test]
fn test_success_stores_configured_fidelity() {
    let protocol = BarrettKokProtocol::new(BILLION, BILLION, 0, 950_000_000, BILLION);
    let channel = QuantumChannel::new(0, 1, 0, 0);
    let mut rng = SimRng::from_seed(9);

    let mut node_a = QuantumNode::new(0, 1);
    let mut node_b = QuantumNode::new(1, 1);
    protocol.attempt_generation(&mut node_a, &mut node_b, &channel, 25, &mut rng).unwrap();

    let pair = node_a.remove_pair_with(1).unwrap();
    assert_eq!(pair.fidelity, 950_000_000);
    assert_eq!(pair.creation_time, 25);
    assert!(pair.state.is_normalized());
}

#[test]
fn test_presets() {
    let reference = BarrettKokProtocol::sequence_parameters();
    assert_eq!(reference.bsm_efficiency, 500_000_000);
    assert_eq!(reference.detector_efficiency, 900_000_000);
    assert_eq!(reference.dark_count_rate, 0);
    assert_eq!(reference.initial_fidelity, 950_000_000);

    let realistic = BarrettKokProtocol::realistic();
    assert_eq!(realistic.bsm_efficiency, 500_000_000);
    assert_eq!(realistic.dark_count_rate, 10_000_000);
    assert_eq!(realistic.memory_efficiency, 900_000_000);
}

#[test]
fn test_probabilistic_failure_changes_nothing() {
    // A protocol whose BSM never succeeds always reports Ok(false) and
    // leaves both nodes untouched.
    let protocol = BarrettKokProtocol::new(0, BILLION, 0, 950_000_000, BILLION);
    let channel = QuantumChannel::new(0, 1, 0, 0);
    let mut rng = SimRng::from_seed(13);

    let mut node_a = QuantumNode::new(0, 4);
    let mut node_b = QuantumNode::new(1, 4);
    for _ in 0..20 {
        let result =
            protocol.attempt_generation(&mut node_a, &mut node_b, &channel, 0, &mut rng);
        assert_eq!(result.unwrap(), false);
    }
    assert_eq!(node_a.num_stored_pairs(), 0);
    assert_eq!(node_b.num_stored_pairs(), 0);
}
