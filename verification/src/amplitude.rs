//! Fixed-point complex amplitudes for state vectors.
//!
//! An amplitude component of 1.0 is `AMP_SCALE`; a normalized state vector
//! has squared norm `NORM_ONE == AMP_SCALE * AMP_SCALE`, up to the integer
//! tolerances defined here.

use vstd::arithmetic::div_mod::{lemma_div_is_ordered, lemma_hoist_over_denominator};
use vstd::arithmetic::mul::lemma_mul_inequality;
use vstd::prelude::*;

verus! {

/// Fixed-point scale of one amplitude component: 1.0.
pub const AMP_SCALE: i64 = 1_000_000;

/// floor(AMP_SCALE / sqrt(2)): the component of a balanced superposition.
pub const INV_SQRT2: i64 = 707_106;

/// AMP_SCALE squared: the squared norm of an ideal normalized state.
pub const NORM_ONE: i64 = 1_000_000_000_000;

/// How far a squared norm may stray from `NORM_ONE` and still count as
/// normalized.
pub const NORM_TOL: i64 = 100_000_000;

/// The tighter bound that freshly prepared states satisfy and that the
/// Hadamard gate requires of its input.
pub const NORM_TIGHT: i64 = 50_000_000;

/// One complex amplitude, real and imaginary parts in fixed point.
#[derive(Clone, Copy, Debug, PartialEq, Eq, Structural)]
pub struct Amp {
    pub re: i64,
    pub im: i64,
}

impl Amp {
    /// The squared magnitude |re + i*im|^2.
    pub open spec fn norm_sq(self) -> int {
        self.re * self.re + self.im * self.im
    }

    /// Components stay comfortably inside the arithmetic range.
    pub open spec fn in_range(self) -> bool {
        &&& -2_000_000 <= self.re <= 2_000_000
        &&& -2_000_000 <= self.im <= 2_000_000
    }

    /// An amplitude from raw fixed-point parts.
    pub fn new(re: i64, im: i64) -> (a: Amp)
        ensures
            a.re == re,
            a.im == im,
    {
        Amp { re, im }
    }
}

/// Multiplication of a component by 1/sqrt(2) in fixed point, flooring.
pub open spec fn scaled(x: int) -> int {
    (x * INV_SQRT2) / (AMP_SCALE as int)
}

/// Compute `scaled(x)`.  The offset keeps the division unsigned, so the
/// floor is exact for negative components too.
pub fn scale_half(x: i64) -> (r: i64)
    requires
        -4_000_000 <= x <= 4_000_000,
    ensures
        r == scaled(x as int),
        -2_828_424 <= r <= 2_828_424,
        -2_000_050 <= x <= 2_000_050 ==> -1_414_249 <= r <= 1_414_249,
{
    proof {
        assert((x + 4_000_000) * (INV_SQRT2 as int) == x * (INV_SQRT2 as int)
            + 2_828_424 * (AMP_SCALE as int)) by (nonlinear_arith);
        lemma_hoist_over_denominator(x * (INV_SQRT2 as int), 2_828_424, AMP_SCALE as nat);
        if -2_000_050 <= x <= 2_000_050 {
            lemma_mul_inequality(x as int, 2_000_050, INV_SQRT2 as int);
            lemma_div_is_ordered(
                x * (INV_SQRT2 as int),
                2_000_050 * (INV_SQRT2 as int),
                AMP_SCALE as int,
            );
            lemma_mul_inequality(-2_000_050, x as int, INV_SQRT2 as int);
            lemma_div_is_ordered(
                -2_000_050 * (INV_SQRT2 as int),
                x * (INV_SQRT2 as int),
                AMP_SCALE as int,
            );
        }
        lemma_mul_inequality(x as int, 4_000_000, INV_SQRT2 as int);
        lemma_div_is_ordered(
            x * (INV_SQRT2 as int),
            4_000_000 * (INV_SQRT2 as int),
            AMP_SCALE as int,
        );
        lemma_mul_inequality(-4_000_000, x as int, INV_SQRT2 as int);
        lemma_div_is_ordered(
            -4_000_000 * (INV_SQRT2 as int),
            x * (INV_SQRT2 as int),
            AMP_SCALE as int,
        );
    }
    let t: u64 = (x + 4_000_000) as u64;
    let m: u64 = t * 707_106;
    let q: u64 = m / 1_000_000;
    (q as i64) - 2_828_424
}

} // verus!
