use qnetsim::measurement::{
    measure_x, measure_y, measure_z, measure_z_with_noise, MeasurementConfig,
};
use qnetsim::numeric::BILLION;
use qnetsim::rng::SimRng;
use qnetsim::state::Qubit;

#[test]
fn test_measure_zero_state() {
    let mut qubit = Qubit::new_zero();
    let mut rng = SimRng::from_seed(1);
    let result = measure_z(&mut qubit, &mut rng);

    // Always measures |0> (false).
    assert!(!result);

    // State collapsed to |0>.
    assert_eq!(qubit.amp0.re, 1_000_000);
    assert_eq!(qubit.amp1.re, 0);
    assert_eq!(qubit.amp1.im, 0);
}

#[test]
fn test_measure_one_state() {
    let mut qubit = Qubit::new_one();
    let mut rng = SimRng::from_seed(1);
    let result = measure_z(&mut qubit, &mut rng);

    // Always measures |1> (true).
    assert!(result);

    // State collapsed to |1>.
    assert_eq!(qubit.amp0.re, 0);
    assert_eq!(qubit.amp0.im, 0);
    assert_eq!(qubit.amp1.re, 1_000_000);
}

#[test]
fn test_measure_superposition() {
    // Measure |+> many times: roughly half should read |1>.
    let num_trials = 10000;
    let mut num_ones = 0;
    let mut rng = SimRng::from_seed(12345);

    for _ in 0..num_trials {
        let mut qubit = Qubit::new_plus();
        if measure_z(&mut qubit, &mut rng) {
            num_ones += 1;
        }
    }

    let ratio = num_ones as f64 / num_trials as f64;
    assert!((ratio - 0.5).abs() < 0.05);
}

#[test]
fn test_perfect_measurement() {
    let config = MeasurementConfig::perfect();

    let mut qubit = Qubit::new_zero();
    let mut rng = SimRng::from_seed(1);
    let result = measure_z_with_noise(
        &mut qubit,
        config.detector_efficiency,
        config.dark_count_rate,
        config.measurement_error_rate,
        &mut rng,
    );

    // A perfect measurement of |0> reads |0>.
    assert!(!result);
}

#[test]
fn test_noisy_measurement_statistics() {
    let config = MeasurementConfig::realistic();
    let num_trials = 1000;
    let mut errors = 0;
    let mut rng = SimRng::from_seed(99);

    // Measure |0> many times; dark counts and readout flips sometimes
    // report |1>.
    for _ in 0..num_trials {
        let mut qubit = Qubit::new_zero();
        let result = measure_z_with_noise(
            &mut qubit,
            config.detector_efficiency,
            config.dark_count_rate,
            config.measurement_error_rate,
            &mut rng,
        );
        if result {
            errors += 1;
        }
    }

    let error_rate = errors as f64 / num_trials as f64;
    assert!(error_rate > 0.0);
    assert!(error_rate < 0.1);
}

#[test]
fn test_x_basis_measurement() {
    let mut qubit = Qubit::new_plus();
    let mut rng = SimRng::from_seed(1);
    let result = measure_x(&mut qubit, &mut rng);

    // The outcome is a valid bit and the state is collapsed.
    assert!(result == true || result == false);
    assert!(qubit.is_normalized());
}

#[test]
fn test_x_basis_on_plus_reads_plus() {
    // H|+> is within rounding of |0>, so the X-basis measurement of |+>
    // reads "plus" (false) overwhelmingly; with prob_zero a few ppm off
    // 1.0, a seeded run of 1000 never sees the other outcome.
    let mut rng = SimRng::from_seed(4);
    for _ in 0..1000 {
        let mut qubit = Qubit::new_plus();
        let result = measure_x(&mut qubit, &mut rng);
        assert!(!result);
    }
}

#[test]
fn test_y_basis_on_iplus_reads_iplus() {
    // S-adjoint turns |i+> into |+>, the Hadamard turns that into |0>
    // up to rounding, so the Y-basis measurement of |i+> reads "i plus"
    // (false) overwhelmingly.
    let mut rng = SimRng::from_seed(15);
    for _ in 0..1000 {
        let mut qubit = Qubit::new_iplus();
        let result = measure_y(&mut qubit, &mut rng);
        assert!(!result);
        assert!(qubit.is_normalized());
    }
}

#[test]
fn test_measurement_collapse() {
    let mut qubit = Qubit::new_plus();
    let mut rng = SimRng::from_seed(77);

    let result1 = measure_z(&mut qubit, &mut rng);
    // A second measurement of the collapsed state gives the same answer.
    let result2 = measure_z(&mut qubit, &mut rng);

    assert_eq!(result1, result2);
}

#[test]
fn test_measurement_config_presets() {
    let perfect = MeasurementConfig::perfect();
    assert_eq!(perfect.detector_efficiency, BILLION);
    assert_eq!(perfect.dark_count_rate, 0);
    assert_eq!(perfect.measurement_error_rate, 0);

    let realistic = MeasurementConfig::realistic();
    assert_eq!(realistic.detector_efficiency, 950_000_000);
    assert_eq!(realistic.dark_count_rate, 10_000_000);
    assert_eq!(realistic.measurement_error_rate, 20_000_000);

    let high = MeasurementConfig::high_quality();
    assert_eq!(high.detector_efficiency, 980_000_000);
    assert_eq!(high.dark_count_rate, 1_000_000);
    assert_eq!(high.measurement_error_rate, 5_000_000);
}
