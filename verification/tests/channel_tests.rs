use qnetsim::channel::QuantumChannel;
use qnetsim::numeric::BILLION;
use qnetsim::rng::SimRng;

#[test]
fn test_channel_creation() {
    let channel = QuantumChannel::new(0, 1, 10_000, 200);
    assert_eq!(channel.node_a, 0);
    assert_eq!(channel.node_b, 1);
    assert_eq!(channel.distance_m, 10_000);
}

#[test]
fn test_success_probability() {
    // 10 km of 0.2 dB/km fiber: alpha = ln(10)/10 * 0.2, p = e^(-alpha*10),
    // about 0.631.
    let channel = QuantumChannel::new(0, 1, 10_000, 200);
    let prob = channel.success_probability();
    assert!(prob > 600_000_000 && prob < 650_000_000);
}

#[test]
fn test_success_probability_exact() {
    let channel = QuantumChannel::new(0, 1, 10_000, 200);
    assert_eq!(channel.success_probability(), 630_999_141);
}

#[test]
fn test_zero_distance() {
    let channel = QuantumChannel::new(0, 1, 0, 200);
    assert_eq!(channel.success_probability(), BILLION);
}

#[test]
fn test_zero_attenuation() {
    let channel = QuantumChannel::new(0, 1, 10_000, 0);
    assert_eq!(channel.success_probability(), BILLION);
}

#[test]
fn test_probability_decreases_with_distance() {
    let near = QuantumChannel::new(0, 1, 1_000, 200);
    let mid = QuantumChannel::new(0, 1, 10_000, 200);
    let far = QuantumChannel::new(0, 1, 50_000, 200);
    assert!(near.success_probability() > mid.success_probability());
    assert!(mid.success_probability() > far.success_probability());
}

#[test]
fn test_probability_decreases_with_attenuation() {
    let low = QuantumChannel::new(0, 1, 10_000, 100);
    let high = QuantumChannel::new(0, 1, 10_000, 400);
    assert!(low.success_probability() > high.success_probability());
}

#[test]
fn test_extreme_loss_is_zero() {
    // 1000 km at 0.5 dB/km is far beyond the decay cutoff.
    let channel = QuantumChannel::new(0, 1, 1_000_000, 500);
    assert_eq!(channel.success_probability(), 0);
}

#[test]
fn test_connects_to() {
    let channel = QuantumChannel::new(0, 1, 10_000, 200);
    assert!(channel.connects_to(0));
    assert!(channel.connects_to(1));
    assert!(!channel.connects_to(2));
}

#[test]
fn test_get_partner() {
    let channel = QuantumChannel::new(0, 1, 10_000, 200);
    assert_eq!(channel.get_partner(0), Some(1));
    assert_eq!(channel.get_partner(1), Some(0));
    assert_eq!(channel.get_partner(2), None);
}

#[test]
fn test_lossless_attempt_always_succeeds() {
    let channel = QuantumChannel::new(0, 1, 0, 0);
    let mut rng = SimRng::from_seed(7);
    for _ in 0..100 {
        assert!(channel.attempt_generation(&mut rng));
    }
}

#[test]
fn test_opaque_attempt_never_succeeds() {
    let channel = QuantumChannel::new(0, 1, 1_000_000, 500);
    let mut rng = SimRng::from_seed(7);
    for _ in 0..100 {
        assert!(!channel.attempt_generation(&mut rng));
    }
}
