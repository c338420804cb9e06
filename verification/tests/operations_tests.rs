use qnetsim::channel::QuantumChannel;
use qnetsim::node::QuantumNode;
use qnetsim::operations::{attempt_entanglement_generation, GenerationStats};
use qnetsim::rng::SimRng;

#[test]
fn test_successful_generation() {
    let mut node_a = QuantumNode::new(0, 10);
    let mut node_b = QuantumNode::new(1, 10);
    let channel = QuantumChannel::new(0, 1, 0, 0);  // Perfect channel
    let mut rng = SimRng::from_seed(42);

    let result =
        attempt_entanglement_generation(&mut node_a, &mut node_b, &channel, 0, &mut rng);

    assert!(result.is_ok());
    assert!(result.unwrap());  // A lossless channel always succeeds
    assert_eq!(node_a.num_stored_pairs(), 1);
    assert_eq!(node_b.num_stored_pairs(), 1);
}

#[test]
fn test_generated_pairs_are_linked() {
    let mut node_a = QuantumNode::new(4, 3);
    let mut node_b = QuantumNode::new(7, 3);
    let channel = QuantumChannel::new(4, 7, 0, 0);
    let mut rng = SimRng::from_seed(3);

    attempt_entanglement_generation(&mut node_a, &mut node_b, &channel, 11, &mut rng)
        .unwrap();

    let pair_a = node_a.remove_pair_with(7).unwrap();
    let pair_b = node_b.remove_pair_with(4).unwrap();
    assert_eq!(pair_a.partner_node_id, 7);
    assert_eq!(pair_b.partner_node_id, 4);
    assert_eq!(pair_a.creation_time, 11);
    assert_eq!(pair_b.creation_time, 11);
    assert_eq!(pair_a.fidelity, pair_b.fidelity);
}

#[test]
fn test_channel_loss() {
    let node_a = QuantumNode::new(0, 10);
    let node_b = QuantumNode::new(1, 10);
    // Very lossy channel: 100 km at 0.5 dB/km leaves a success
    // probability around 8e-6, so a hundred attempts lose essentially
    // all of them.
    let channel = QuantumChannel::new(0, 1, 100_000, 500);
    let mut rng = SimRng::from_seed(11);

    let mut successes = 0;
    let attempts = 100;

    for _ in 0..attempts {
        let mut test_node_a = QuantumNode::new(node_a.id, node_a.memory_capacity);
        let mut test_node_b = QuantumNode::new(node_b.id, node_b.memory_capacity);

        if let Ok(true) = attempt_entanglement_generation(
            &mut test_node_a,
            &mut test_node_b,
            &channel,
            0,
            &mut rng,
        ) {
            successes += 1;
        }
    }

    // Loss dominates.
    assert!(successes < attempts);
}

#[test]
fn test_moderate_channel_loss_statistics() {
    // 10 km at 0.2 dB/km transmits about 63% of attempts: over a
    // thousand attempts both outcomes occur.
    let channel = QuantumChannel::new(0, 1, 10_000, 200);
    let mut rng = SimRng::from_seed(8);

    let mut successes = 0;
    let attempts = 1000;
    for _ in 0..attempts {
        let mut a = QuantumNode::new(0, 1);
        let mut b = QuantumNode::new(1, 1);
        if attempt_entanglement_generation(&mut a, &mut b, &channel, 0, &mut rng).unwrap() {
            successes += 1;
        }
    }
    assert!(successes > 0);
    assert!(successes < attempts);
    let ratio = successes as f64 / attempts as f64;
    assert!((ratio - 0.631).abs() < 0.05);
}

#[test]
fn operations_test_memory_full() {
    let mut node_a = QuantumNode::new(0, 1);  // Only 1 slot
    let mut node_b = QuantumNode::new(1, 10);
    let channel = QuantumChannel::new(0, 1, 0, 0);
    let mut rng = SimRng::from_seed(42);

    // First generation succeeds.
    let result1 =
        attempt_entanglement_generation(&mut node_a, &mut node_b, &channel, 0, &mut rng);
    assert!(result1.is_ok());

    // Second fails: memory full.
    let result2 =
        attempt_entanglement_generation(&mut node_a, &mut node_b, &channel, 0, &mut rng);
    assert!(result2.is_err());
    let err = result2.unwrap_err();
    assert_eq!(err.node_id, 0);
    assert_eq!(err.occupancy, 1);
    // The failed attempt changed neither node.
    assert_eq!(node_a.num_stored_pairs(), 1);
    assert_eq!(node_b.num_stored_pairs(), 1);
}

#[test]
fn test_generation_stats() {
    let mut stats = GenerationStats::new();
    assert_eq!(stats.attempts, 0);
    assert_eq!(stats.success_rate(), 0);

    stats.attempts = 4;
    stats.successes = 1;
    stats.channel_failures = 3;
    assert_eq!(stats.success_rate(), 250_000_000);

    stats.attempts = 3;
    stats.successes = 1;
    assert_eq!(stats.success_rate(), 333_333_333);
}
