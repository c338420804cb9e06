//! Single-qubit gates on fixed-point state vectors.
//!
//! Pauli gates permute or negate amplitude components and preserve the
//! squared norm exactly.  The Hadamard gate scales by 1/sqrt(2) in fixed
//! point; it keeps a tightly normalized state normalized, with the rounding
//! slack accounted for in the norm tolerance.

use crate::amplitude::{scale_half, scaled, Amp, AMP_SCALE, NORM_ONE, NORM_TIGHT, NORM_TOL};
use crate::state::Qubit;
use vstd::arithmetic::div_mod::{
    lemma_fundamental_div_mod, lemma_hoist_over_denominator, lemma_mod_bound,
};
use vstd::prelude::*;

verus! {

/// (-x)^2 == x^2.
proof fn lemma_neg_sq(x: int)
    ensures
        (-x) * (-x) == x * x,
{
    assert((-x) * (-x) == x * x) by (nonlinear_arith);
}

/// Pauli-X (NOT): swaps the amplitudes of |0> and |1>.
pub fn pauli_x(qubit: &mut Qubit)
    requires
        old(qubit).in_range(),
    ensures
        final(qubit).amp0 == old(qubit).amp1,
        final(qubit).amp1 == old(qubit).amp0,
        final(qubit).norm2() == old(qubit).norm2(),
        final(qubit).in_range(),
        old(qubit).is_normalized_spec() ==> final(qubit).is_normalized_spec(),
        old(qubit).tightly_normalized() ==> final(qubit).tightly_normalized(),
{
    let swap = qubit.amp0;
    qubit.amp0 = qubit.amp1;
    qubit.amp1 = swap;
}

/// Pauli-Y: |0> -> i|1>, |1> -> -i|0>.
pub fn pauli_y(qubit: &mut Qubit)
    requires
        old(qubit).in_range(),
    ensures
        final(qubit).amp0.re == old(qubit).amp1.im,
        final(qubit).amp0.im == -old(qubit).amp1.re,
        final(qubit).amp1.re == -old(qubit).amp0.im,
        final(qubit).amp1.im == old(qubit).amp0.re,
        final(qubit).norm2() == old(qubit).norm2(),
        final(qubit).in_range(),
        old(qubit).is_normalized_spec() ==> final(qubit).is_normalized_spec(),
        old(qubit).tightly_normalized() ==> final(qubit).tightly_normalized(),
{
    proof {
        lemma_neg_sq(old(qubit).amp1.re as int);
        lemma_neg_sq(old(qubit).amp0.im as int);
    }
    let a0 = qubit.amp0;
    let a1 = qubit.amp1;
    qubit.amp0 = Amp { re: a1.im, im: -a1.re };
    qubit.amp1 = Amp { re: -a0.im, im: a0.re };
}

/// Pauli-Z (phase flip): |1> -> -|1>.
pub fn pauli_z(qubit: &mut Qubit)
    requires
        old(qubit).in_range(),
    ensures
        final(qubit).amp0 == old(qubit).amp0,
        final(qubit).amp1.re == -old(qubit).amp1.re,
        final(qubit).amp1.im == -old(qubit).amp1.im,
        final(qubit).norm2() == old(qubit).norm2(),
        final(qubit).in_range(),
        old(qubit).is_normalized_spec() ==> final(qubit).is_normalized_spec(),
        old(qubit).tightly_normalized() ==> final(qubit).tightly_normalized(),
{
    proof {
        lemma_neg_sq(old(qubit).amp1.re as int);
        lemma_neg_sq(old(qubit).amp1.im as int);
    }
    let a1 = qubit.amp1;
    qubit.amp1 = Amp { re: -a1.re, im: -a1.im };
}

/// Identity gate: the state is unchanged.
pub fn identity(qubit: &mut Qubit)
    ensures
        *final(qubit) == *old(qubit),
{
    let _ = qubit;
}

/// A squared norm bounds each of its component squares, so a tightly
/// normalized component stays within 1_000_025 in magnitude.
proof fn lemma_comp_bound(x: int)
    requires
        x * x <= NORM_ONE + NORM_TIGHT,
    ensures
        -1_000_025 <= x <= 1_000_025,
{
    assert(-1_000_025 <= x <= 1_000_025) by (nonlinear_arith)
        requires x * x <= 1_000_050_000_000int;
}

/// How far the square of a 1/sqrt(2)-scaled component, at squared-scale,
/// can stray from the exact product: the floor loses at most one scale
/// unit per component.
proof fn lemma_scaled_sq_bounds(x: int)
    requires
        -2_000_050 <= x <= 2_000_050,
    ensures
        x * x * 499_998_895_236 - 2_830_000_000_000_000_000
            <= scaled(x) * scaled(x) * 1_000_000_000_000,
        scaled(x) * scaled(x) * 1_000_000_000_000
            <= x * x * 499_998_895_236 + 2_830_000_000_000_000_000,
{
    let q = scaled(x);
    lemma_fundamental_div_mod(x * 707_106, 1_000_000);
    lemma_mod_bound(x * 707_106, 1_000_000);
    let r = (x * 707_106) % 1_000_000;
    assert(x * 707_106 == 1_000_000 * q + r);
    assert(q * q * 1_000_000_000_000 <= x * x * 499_998_895_236 + 2_830_000_000_000_000_000
        && x * x * 499_998_895_236 - 2_830_000_000_000_000_000 <= q * q * 1_000_000_000_000)
        by (nonlinear_arith)
        requires
            x * 707_106 == 1_000_000 * q + r,
            0 <= r < 1_000_000,
            -2_000_050 <= x <= 2_000_050;
}

/// Hadamard: |0> -> |+>, |1> -> |->, in fixed point.
pub fn hadamard(qubit: &mut Qubit)
    requires
        old(qubit).in_range(),
        old(qubit).tightly_normalized(),
    ensures
        final(qubit).amp0.re == scaled(old(qubit).amp0.re + old(qubit).amp1.re),
        final(qubit).amp0.im == scaled(old(qubit).amp0.im + old(qubit).amp1.im),
        final(qubit).amp1.re == scaled(old(qubit).amp0.re - old(qubit).amp1.re),
        final(qubit).amp1.im == scaled(old(qubit).amp0.im - old(qubit).amp1.im),
        final(qubit).in_range(),
        final(qubit).is_normalized_spec(),
{
    let a0 = qubit.amp0;
    let a1 = qubit.amp1;
    proof {
        let n = old(qubit).norm2();
        assert(a0.re * a0.re >= 0 && a0.im * a0.im >= 0 && a1.re * a1.re >= 0
            && a1.im * a1.im >= 0) by (nonlinear_arith);
        lemma_comp_bound(a0.re as int);
        lemma_comp_bound(a0.im as int);
        lemma_comp_bound(a1.re as int);
        lemma_comp_bound(a1.im as int);
    }
    let xr: i64 = a0.re + a1.re;
    let xi: i64 = a0.im + a1.im;
    let yr: i64 = a0.re - a1.re;
    let yi: i64 = a0.im - a1.im;
    let q0r = scale_half(xr);
    let q0i = scale_half(xi);
    let q1r = scale_half(yr);
    let q1i = scale_half(yi);
    proof {
        let n = old(qubit).norm2();
        lemma_scaled_sq_bounds(xr as int);
        lemma_scaled_sq_bounds(xi as int);
        lemma_scaled_sq_bounds(yr as int);
        lemma_scaled_sq_bounds(yi as int);
        assert(xr * xr + yr * yr == 2 * (a0.re * a0.re + a1.re * a1.re)) by (nonlinear_arith)
            requires xr == a0.re + a1.re && yr == a0.re - a1.re;
        assert(xi * xi + yi * yi == 2 * (a0.im * a0.im + a1.im * a1.im)) by (nonlinear_arith)
            requires xi == a0.im + a1.im && yi == a0.im - a1.im;
        let nn = q0r * q0r + q0i * q0i + q1r * q1r + q1i * q1i;
        assert(nn * 1_000_000_000_000
            <= 2 * n * 499_998_895_236 + 11_320_000_000_000_000_000);
        assert(nn * 1_000_000_000_000
            >= 2 * n * 499_998_895_236 - 11_320_000_000_000_000_000);
        assert(NORM_ONE - NORM_TOL <= nn <= NORM_ONE + NORM_TOL);
    }
    qubit.amp0 = Amp { re: q0r, im: q0i };
    qubit.amp1 = Amp { re: q1r, im: q1i };
}

/// A 2x2 complex matrix in fixed point (an entry of AMP_SCALE is 1.0),
/// for generic single-qubit gate application.
#[derive(Clone, Copy, Debug, PartialEq, Eq, Structural)]
pub struct GateMatrix {
    pub m00: Amp,
    pub m01: Amp,
    pub m10: Amp,
    pub m11: Amp,
}

impl GateMatrix {
    /// All entries stay inside the arithmetic range.
    pub open spec fn in_range(self) -> bool {
        self.m00.in_range() && self.m01.in_range() && self.m10.in_range() && self.m11.in_range()
    }
}

/// Real part of one output amplitude: Re(m1*a1 + m2*a2), scaled back down.
pub open spec fn row_re(m1: Amp, a1: Amp, m2: Amp, a2: Amp) -> int {
    (m1.re * a1.re - m1.im * a1.im + m2.re * a2.re - m2.im * a2.im) / (AMP_SCALE as int)
}

/// Imaginary part of one output amplitude: Im(m1*a1 + m2*a2), scaled back
/// down.
pub open spec fn row_im(m1: Amp, a1: Amp, m2: Amp, a2: Amp) -> int {
    (m1.re * a1.im + m1.im * a1.re + m2.re * a2.im + m2.im * a2.re) / (AMP_SCALE as int)
}

/// Multiply two components, for the matrix product.
fn prod(x: i64, y: i64) -> (r: i64)
    requires
        -2_000_000 <= x <= 2_000_000,
        -2_000_000 <= y <= 2_000_000,
    ensures
        r == x * y,
        -4_000_000_000_000 <= r <= 4_000_000_000_000,
{
    proof {
        assert(-4_000_000_000_000 <= x * y <= 4_000_000_000_000) by (nonlinear_arith)
            requires -2_000_000 <= x <= 2_000_000 && -2_000_000 <= y <= 2_000_000;
    }
    x * y
}

/// Scale a summed product back down by AMP_SCALE, flooring; the offset
/// keeps the division unsigned so the floor is exact for negative sums.
fn div_scale(x: i64) -> (r: i64)
    requires
        -18_000_000_000_000 <= x <= 18_000_000_000_000,
    ensures
        r == x as int / (AMP_SCALE as int),
        -18_000_000 <= r <= 18_000_000,
{
    proof {
        lemma_hoist_over_denominator(x as int, 18_000_000, AMP_SCALE as nat);
        vstd::arithmetic::div_mod::lemma_div_is_ordered(
            x as int,
            18_000_000_000_000,
            AMP_SCALE as int,
        );
        vstd::arithmetic::div_mod::lemma_div_is_ordered(
            -18_000_000_000_000,
            x as int,
            AMP_SCALE as int,
        );
    }
    let t: u64 = (x + 18_000_000_000_000) as u64;
    let q: u64 = t / 1_000_000;
    (q as i64) - 18_000_000
}

/// Apply a 2x2 matrix to the state vector.  The result is exact
/// fixed-point arithmetic; whether it is normalized depends on the matrix
/// being unitary.
pub fn apply_gate(qubit: &mut Qubit, gate_matrix: &GateMatrix)
    requires
        old(qubit).in_range(),
        gate_matrix.in_range(),
    ensures
        final(qubit).amp0.re == row_re(gate_matrix.m00, old(qubit).amp0, gate_matrix.m01, old(qubit).amp1),
        final(qubit).amp0.im == row_im(gate_matrix.m00, old(qubit).amp0, gate_matrix.m01, old(qubit).amp1),
        final(qubit).amp1.re == row_re(gate_matrix.m10, old(qubit).amp0, gate_matrix.m11, old(qubit).amp1),
        final(qubit).amp1.im == row_im(gate_matrix.m10, old(qubit).amp0, gate_matrix.m11, old(qubit).amp1),
{
    let a0 = qubit.amp0;
    let a1 = qubit.amp1;
    let r0 = div_scale(
        prod(gate_matrix.m00.re, a0.re) - prod(gate_matrix.m00.im, a0.im)
            + prod(gate_matrix.m01.re, a1.re) - prod(gate_matrix.m01.im, a1.im),
    );
    let i0 = div_scale(
        prod(gate_matrix.m00.re, a0.im) + prod(gate_matrix.m00.im, a0.re)
            + prod(gate_matrix.m01.re, a1.im) + prod(gate_matrix.m01.im, a1.re),
    );
    let r1 = div_scale(
        prod(gate_matrix.m10.re, a0.re) - prod(gate_matrix.m10.im, a0.im)
            + prod(gate_matrix.m11.re, a1.re) - prod(gate_matrix.m11.im, a1.im),
    );
    let i1 = div_scale(
        prod(gate_matrix.m10.re, a0.im) + prod(gate_matrix.m10.im, a0.re)
            + prod(gate_matrix.m11.re, a1.im) + prod(gate_matrix.m11.im, a1.re),
    );
    qubit.amp0 = Amp { re: r0, im: i0 };
    qubit.amp1 = Amp { re: r1, im: i1 };
}

/// The Pauli-X matrix [[0, 1], [1, 0]].
pub fn get_pauli_x_matrix() -> (m: GateMatrix)
    ensures
        m.m00 == (Amp { re: 0, im: 0 }),
        m.m01 == (Amp { re: AMP_SCALE, im: 0 }),
        m.m10 == (Amp { re: AMP_SCALE, im: 0 }),
        m.m11 == (Amp { re: 0, im: 0 }),
        m.in_range(),
{
    GateMatrix {
        m00: Amp { re: 0, im: 0 },
        m01: Amp { re: AMP_SCALE, im: 0 },
        m10: Amp { re: AMP_SCALE, im: 0 },
        m11: Amp { re: 0, im: 0 },
    }
}

/// Applying the Pauli-X matrix through `apply_gate` swaps the two
/// amplitudes exactly, agreeing with `pauli_x`.
pub proof fn lemma_pauli_x_matrix_agrees(a0: Amp, a1: Amp)
    ensures
        row_re(Amp { re: 0, im: 0 }, a0, Amp { re: AMP_SCALE, im: 0 }, a1) == a1.re,
        row_im(Amp { re: 0, im: 0 }, a0, Amp { re: AMP_SCALE, im: 0 }, a1) == a1.im,
        row_re(Amp { re: AMP_SCALE, im: 0 }, a0, Amp { re: 0, im: 0 }, a1) == a0.re,
        row_im(Amp { re: AMP_SCALE, im: 0 }, a0, Amp { re: 0, im: 0 }, a1) == a0.im,
{
    assert((AMP_SCALE as int) * a1.re == a1.re * (AMP_SCALE as int)) by (nonlinear_arith);
    vstd::arithmetic::div_mod::lemma_div_multiples_vanish(a1.re as int, AMP_SCALE as int);
    assert((AMP_SCALE as int) * a1.im == a1.im * (AMP_SCALE as int)) by (nonlinear_arith);
    vstd::arithmetic::div_mod::lemma_div_multiples_vanish(a1.im as int, AMP_SCALE as int);
    assert((AMP_SCALE as int) * a0.re == a0.re * (AMP_SCALE as int)) by (nonlinear_arith);
    vstd::arithmetic::div_mod::lemma_div_multiples_vanish(a0.re as int, AMP_SCALE as int);
    assert((AMP_SCALE as int) * a0.im == a0.im * (AMP_SCALE as int)) by (nonlinear_arith);
    vstd::arithmetic::div_mod::lemma_div_multiples_vanish(a0.im as int, AMP_SCALE as int);
}

/// The Pauli-Y matrix [[0, -i], [i, 0]].
pub fn get_pauli_y_matrix() -> (m: GateMatrix)
    ensures
        m.m00 == (Amp { re: 0, im: 0 }),
        m.m01.re == 0 && m.m01.im == -AMP_SCALE,
        m.m10 == (Amp { re: 0, im: AMP_SCALE }),
        m.m11 == (Amp { re: 0, im: 0 }),
        m.in_range(),
{
    GateMatrix {
        m00: Amp { re: 0, im: 0 },
        m01: Amp { re: 0, im: -AMP_SCALE },
        m10: Amp { re: 0, im: AMP_SCALE },
        m11: Amp { re: 0, im: 0 },
    }
}

/// The Pauli-Z matrix [[1, 0], [0, -1]].
pub fn get_pauli_z_matrix() -> (m: GateMatrix)
    ensures
        m.m00 == (Amp { re: AMP_SCALE, im: 0 }),
        m.m01 == (Amp { re: 0, im: 0 }),
        m.m10 == (Amp { re: 0, im: 0 }),
        m.m11.re == -AMP_SCALE && m.m11.im == 0,
        m.in_range(),
{
    GateMatrix {
        m00: Amp { re: AMP_SCALE, im: 0 },
        m01: Amp { re: 0, im: 0 },
        m10: Amp { re: 0, im: 0 },
        m11: Amp { re: -AMP_SCALE, im: 0 },
    }
}

} // verus!
