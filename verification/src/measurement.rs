//! Qubit measurement: ideal and noisy Z-basis measurement, plus X- and
//! Y-basis measurement by basis rotation.  Every measurement collapses
//! the state to the reported basis state.

use crate::amplitude::{Amp, AMP_SCALE};
use crate::gates::hadamard;
use crate::numeric::BILLION;
use crate::rng::{bernoulli_outcome, SimRng};
use crate::state::Qubit;
use vstd::prelude::*;

verus! {

/// The post-measurement state after reading |0>.
pub open spec fn collapsed_zero() -> Qubit {
    Qubit { amp0: Amp { re: AMP_SCALE, im: 0 }, amp1: Amp { re: 0, im: 0 } }
}

/// The post-measurement state after reading |1>.
pub open spec fn collapsed_one() -> Qubit {
    Qubit { amp0: Amp { re: 0, im: 0 }, amp1: Amp { re: AMP_SCALE, im: 0 } }
}

/// Ideal Z-basis measurement: returns true for |1>, false for |0>, and
/// collapses the state accordingly.  The outcome is random; guaranteed is
/// only that a state surely in |0> (or surely in |1>) measures so.
pub fn measure_z(qubit: &mut Qubit, rng: &mut SimRng) -> (r: bool)
    requires
        old(qubit).in_range(),
    ensures
        r ==> *final(qubit) == collapsed_one(),
        !r ==> *final(qubit) == collapsed_zero(),
        final(qubit).in_range() && final(qubit).tightly_normalized(),
        old(qubit).prob_zero_spec() >= BILLION ==> !r,
        old(qubit).prob_zero_spec() == 0 ==> r,
{
    let prob_zero = qubit.prob_zero();
    let draw = rng.draw_ppb();
    let one_measured = !bernoulli_outcome(draw, prob_zero);
    if one_measured {
        *qubit = Qubit::new_one();
    } else {
        *qubit = Qubit::new_zero();
    }
    one_measured
}

/// Z-basis measurement through a realistic detector: inefficiency can
/// miss a photon, dark counts can fire without one, and the classical
/// bit can flip.  The state collapses exactly as in the ideal
/// measurement; only the reported bit is distorted.
pub fn measure_z_with_noise(
    qubit: &mut Qubit,
    detector_efficiency: u64,
    dark_count_rate: u64,
    measurement_error_rate: u64,
    rng: &mut SimRng,
) -> (r: bool)
    requires
        old(qubit).in_range(),
        detector_efficiency <= BILLION,
        dark_count_rate <= BILLION,
        measurement_error_rate <= BILLION,
    ensures
        *final(qubit) == collapsed_zero() || *final(qubit) == collapsed_one(),
        final(qubit).in_range() && final(qubit).tightly_normalized(),
        detector_efficiency == BILLION && dark_count_rate == 0 && measurement_error_rate == 0
            ==> r == (*final(qubit) == collapsed_one()),
        old(qubit).prob_zero_spec() >= BILLION && detector_efficiency == BILLION
            && dark_count_rate == 0 && measurement_error_rate == 0 ==> !r,
{
    let ideal_result = measure_z(qubit, rng);

    let detected: bool = if ideal_result {
        // A photon is present; an inefficient detector may miss it.
        bernoulli_outcome(rng.draw_ppb(), detector_efficiency)
    } else {
        // No photon; a dark count may fire anyway.
        bernoulli_outcome(rng.draw_ppb(), dark_count_rate)
    };

    // The classical readout may flip.
    let flipped = bernoulli_outcome(rng.draw_ppb(), measurement_error_rate);
    if flipped {
        !detected
    } else {
        detected
    }
}

/// X-basis measurement (|+> versus |->): rotate with a Hadamard, then
/// measure in the Z basis.  Returns true for |->.
pub fn measure_x(qubit: &mut Qubit, rng: &mut SimRng) -> (r: bool)
    requires
        old(qubit).in_range(),
        old(qubit).tightly_normalized(),
    ensures
        r ==> *final(qubit) == collapsed_one(),
        !r ==> *final(qubit) == collapsed_zero(),
        final(qubit).in_range() && final(qubit).tightly_normalized(),
{
    hadamard(qubit);
    measure_z(qubit, rng)
}

/// Y-basis measurement: apply the adjoint phase gate (|1> -> -i|1>),
/// then a Hadamard, then measure in the Z basis.
pub fn measure_y(qubit: &mut Qubit, rng: &mut SimRng) -> (r: bool)
    requires
        old(qubit).in_range(),
        old(qubit).tightly_normalized(),
    ensures
        r ==> *final(qubit) == collapsed_one(),
        !r ==> *final(qubit) == collapsed_zero(),
        final(qubit).in_range() && final(qubit).tightly_normalized(),
{
    proof {
        let v = old(qubit).amp1.re as int;
        assert((-v) * (-v) == v * v) by (nonlinear_arith);
    }
    // S-adjoint: multiply the |1> amplitude by -i, which preserves its
    // squared magnitude exactly.
    let a1 = qubit.amp1;
    qubit.amp1 = Amp { re: a1.im, im: -a1.re };
    hadamard(qubit);
    measure_z(qubit, rng)
}

/// Detector parameters for realistic measurement, in parts per billion.
#[derive(Clone, Copy, Debug, PartialEq, Eq, Structural)]
pub struct MeasurementConfig {
    /// Probability that a present photon is detected.
    pub detector_efficiency: u64,
    /// Probability of a false positive without a photon.
    pub dark_count_rate: u64,
    /// Probability that the classical result bit flips.
    pub measurement_error_rate: u64,
}

impl MeasurementConfig {
    /// All rates within scale.
    pub open spec fn wf(self) -> bool {
        &&& self.detector_efficiency <= BILLION
        &&& self.dark_count_rate <= BILLION
        &&& self.measurement_error_rate <= BILLION
    }

    /// Perfect measurement, for testing.
    pub fn perfect() -> (c: MeasurementConfig)
        ensures
            c.detector_efficiency == BILLION,
            c.dark_count_rate == 0,
            c.measurement_error_rate == 0,
            c.wf(),
    {
        MeasurementConfig {
            detector_efficiency: BILLION,
            dark_count_rate: 0,
            measurement_error_rate: 0,
        }
    }

    /// Realistic detector parameters.
    pub fn realistic() -> (c: MeasurementConfig)
        ensures
            c.detector_efficiency == 950_000_000,
            c.dark_count_rate == 10_000_000,
            c.measurement_error_rate == 20_000_000,
            c.wf(),
    {
        MeasurementConfig {
            detector_efficiency: 950_000_000,
            dark_count_rate: 10_000_000,
            measurement_error_rate: 20_000_000,
        }
    }

    /// High-quality detector parameters.
    pub fn high_quality() -> (c: MeasurementConfig)
        ensures
            c.detector_efficiency == 980_000_000,
            c.dark_count_rate == 1_000_000,
            c.measurement_error_rate == 5_000_000,
            c.wf(),
    {
        MeasurementConfig {
            detector_efficiency: 980_000_000,
            dark_count_rate: 1_000_000,
            measurement_error_rate: 5_000_000,
        }
    }
}

} // verus!
