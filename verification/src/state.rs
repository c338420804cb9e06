//! Single- and two-qubit state vectors in fixed point, with probability
//! extraction and fidelity (state overlap).

use crate::amplitude::{Amp, INV_SQRT2, NORM_ONE, NORM_TIGHT, NORM_TOL, AMP_SCALE};
use crate::numeric::BILLION;
use vstd::arithmetic::div_mod::{
    lemma_div_by_multiple, lemma_div_is_ordered, lemma_fundamental_div_mod_converse_div,
};
use vstd::arithmetic::mul::lemma_mul_inequality;
use vstd::prelude::*;

verus! {

/// A single-qubit state: amplitudes of |0> and |1>.
#[derive(Clone, Copy, Debug, PartialEq, Eq, Structural)]
pub struct Qubit {
    pub amp0: Amp,
    pub amp1: Amp,
}

/// A two-qubit state: amplitudes of |00>, |01>, |10>, |11>.
#[derive(Clone, Copy, Debug, PartialEq, Eq, Structural)]
pub struct TwoQubitState {
    pub c00: Amp,
    pub c01: Amp,
    pub c10: Amp,
    pub c11: Amp,
}

/// Square an amplitude component.
fn sq(x: i64) -> (r: i64)
    requires
        -3_000_000 <= x <= 3_000_000,
    ensures
        r == x * x,
        0 <= r <= 9_000_000_000_000,
{
    proof {
        assert(0 <= x * x <= 9_000_000_000_000) by (nonlinear_arith)
            requires -3_000_000 <= x <= 3_000_000;
    }
    x * x
}

/// Multiply two amplitude components.
fn amp_prod(x: i64, y: i64) -> (r: i64)
    requires
        -3_000_000 <= x <= 3_000_000,
        -3_000_000 <= y <= 3_000_000,
    ensures
        r == x * y,
        -9_000_000_000_000 <= r <= 9_000_000_000_000,
{
    proof {
        assert(-9_000_000_000_000 <= x * y <= 9_000_000_000_000) by (nonlinear_arith)
            requires -3_000_000 <= x <= 3_000_000 && -3_000_000 <= y <= 3_000_000;
    }
    x * y
}

/// The integer square root: the unique r with r^2 <= n < (r+1)^2.
pub open spec fn int_sqrt(n: nat) -> nat {
    choose|r: nat| #![trigger r * r] r * r <= n && n < (r + 1) * (r + 1)
}

/// Any r with r^2 <= n < (r+1)^2 is the integer square root.
pub proof fn lemma_int_sqrt_unique(n: nat, r: nat)
    requires
        r * r <= n,
        n < (r + 1) * (r + 1),
    ensures
        int_sqrt(n) == r,
{
    assert(exists|q: nat| #![trigger q * q] q * q <= n && n < (q + 1) * (q + 1)) by {
        assert(r * r <= n && n < (r + 1) * (r + 1));
    }
    let s = int_sqrt(n);
    assert(s * s <= n && n < (s + 1) * (s + 1));
    assert(s == r) by (nonlinear_arith)
        requires
            s * s <= n,
            n < (s + 1) * (s + 1),
            r * r <= n,
            n < (r + 1) * (r + 1);
}

/// Compute the integer square root by binary search.
fn isqrt(n: u64) -> (r: u64)
    requires
        n <= 17_000_000_000_000,
    ensures
        (r as int) * (r as int) <= n,
        n < ((r as int) + 1) * ((r as int) + 1),
        r <= 4_200_000,
{
    let mut lo: u64 = 0;
    let mut hi: u64 = 4_200_000;
    proof {
        assert(4_200_000int * 4_200_000 > 17_000_000_000_000) by (nonlinear_arith);
    }
    while lo + 1 < hi
        invariant
            lo < hi <= 4_200_000,
            (lo as int) * (lo as int) <= n,
            n < (hi as int) * (hi as int),
        decreases hi - lo,
    {
        let mid = lo + (hi - lo) / 2;
        proof {
            assert(0 <= (mid as int) * (mid as int) <= 17_640_000_000_000) by (nonlinear_arith)
                requires 0 <= mid <= 4_200_000;
        }
        if mid * mid <= n {
            lo = mid;
        } else {
            hi = mid;
        }
    }
    lo
}

/// A component whose square is below n stays within the square root of n.
proof fn lemma_comp_by_root(c: int, n: int, r: int)
    requires
        c * c <= n,
        n < (r + 1) * (r + 1),
        r >= 0,
    ensures
        -r <= c <= r,
{
    assert(-r <= c <= r) by (nonlinear_arith)
        requires c * c <= n, n < (r + 1) * (r + 1), r >= 0;
}

/// Scale a component up to the unit norm: floor((c * AMP_SCALE) / d),
/// computed on unsigned values so the floor is exact for negative
/// components too.
fn scale_to_unit(c: i64, d: u64) -> (q: i64)
    requires
        1 <= d <= 4_200_000,
        -2_000_000 <= c <= 2_000_000,
        -(d as int) <= c <= d as int,
    ensures
        q == (c * AMP_SCALE) / (d as int),
        -1_000_001 <= q <= 1_000_000,
{
    proof {
        assert(-2_000_000_000_000 <= (c as int) * (AMP_SCALE as int) <= 2_000_000_000_000)
            by (nonlinear_arith)
            requires -2_000_000 <= c <= 2_000_000;
        lemma_mul_inequality(c as int, d as int, AMP_SCALE as int);
        lemma_mul_inequality(-(d as int), c as int, AMP_SCALE as int);
        lemma_div_is_ordered(
            (c as int) * (AMP_SCALE as int),
            (d as int) * (AMP_SCALE as int),
            d as int,
        );
        lemma_div_is_ordered(
            -(d as int) * (AMP_SCALE as int),
            (c as int) * (AMP_SCALE as int),
            d as int,
        );
        assert((d as int) * (AMP_SCALE as int) == (AMP_SCALE as int) * (d as int))
            by (nonlinear_arith);
        lemma_div_by_multiple(AMP_SCALE as int, d as int);
        assert(-(d as int) * (AMP_SCALE as int) == (-(AMP_SCALE as int)) * (d as int))
            by (nonlinear_arith);
        lemma_fundamental_div_mod_converse_div(
            (-(AMP_SCALE as int)) * (d as int),
            d as int,
            -(AMP_SCALE as int),
            0,
        );
    }
    if c >= 0 {
        let m: u64 = (c as u64) * 1_000_000;
        let quo: u64 = m / d;
        quo as i64
    } else {
        let m: u64 = ((-c) as u64) * 1_000_000;
        let quo: u64 = m / d;
        let rem: u64 = m % d;
        proof {
            let x = (c as int) * (AMP_SCALE as int);
            assert(m == -x);
            vstd::arithmetic::div_mod::lemma_fundamental_div_mod(m as int, d as int);
            vstd::arithmetic::div_mod::lemma_mod_bound(m as int, d as int);
            if rem == 0 {
                assert(x == (-(quo as int)) * (d as int) + 0) by (nonlinear_arith)
                    requires m == (d as int) * (quo as int) + 0, x == -(m as int);
                lemma_fundamental_div_mod_converse_div(x, d as int, -(quo as int), 0);
            } else {
                assert(x == (-(quo as int) - 1) * (d as int) + ((d as int) - (rem as int)))
                    by (nonlinear_arith)
                    requires
                        m == (d as int) * (quo as int) + (rem as int),
                        x == -(m as int);
                lemma_fundamental_div_mod_converse_div(
                    x,
                    d as int,
                    -(quo as int) - 1,
                    (d as int) - (rem as int),
                );
            }
        }
        if rem == 0 {
            -(quo as i64)
        } else {
            -(quo as i64) - 1
        }
    }
}

/// How far the square of one normalized component, at root-squared scale,
/// can stray from the exact ratio.
proof fn lemma_unit_sq_bounds(c: int, r: int)
    requires
        1 <= r,
        -r <= c <= r,
    ensures
        ({
            let q = (c * 1_000_000) / r;
            &&& (r * r) * (q * q) <= 1_000_000_000_000 * (c * c) + 2_000_001 * (r * r)
            &&& (r * r) * (q * q) >= 1_000_000_000_000 * (c * c) - 2_000_001 * (r * r)
        }),
{
    let q = (c * 1_000_000) / r;
    vstd::arithmetic::div_mod::lemma_fundamental_div_mod(c * 1_000_000, r);
    vstd::arithmetic::div_mod::lemma_mod_bound(c * 1_000_000, r);
    let rho = (c * 1_000_000) % r;
    assert((r * r) * (q * q) <= 1_000_000_000_000 * (c * c) + 2_000_001 * (r * r)
        && (r * r) * (q * q) >= 1_000_000_000_000 * (c * c) - 2_000_001 * (r * r))
        by (nonlinear_arith)
        requires
            c * 1_000_000 == r * q + rho,
            0 <= rho < r,
            -r <= c <= r,
            1 <= r;
}

impl Qubit {
    /// The squared norm of the state vector.
    pub open spec fn norm2(self) -> int {
        self.amp0.norm_sq() + self.amp1.norm_sq()
    }

    /// Both amplitudes stay inside the arithmetic range.
    pub open spec fn in_range(self) -> bool {
        self.amp0.in_range() && self.amp1.in_range()
    }

    /// The squared norm is 1.0 within the library's integer tolerance.
    pub open spec fn is_normalized_spec(self) -> bool {
        NORM_ONE - NORM_TOL <= self.norm2() <= NORM_ONE + NORM_TOL
    }

    /// The tighter normalization that freshly prepared states enjoy.
    pub open spec fn tightly_normalized(self) -> bool {
        NORM_ONE - NORM_TIGHT <= self.norm2() <= NORM_ONE + NORM_TIGHT
    }

    /// The |0> basis state.
    pub fn new_zero() -> (q: Qubit)
        ensures
            q.amp0 == (Amp { re: AMP_SCALE, im: 0 }),
            q.amp1 == (Amp { re: 0, im: 0 }),
            q.norm2() == NORM_ONE,
            q.in_range() && q.tightly_normalized() && q.is_normalized_spec(),
    {
        proof {
            assert((AMP_SCALE as int) * (AMP_SCALE as int) == NORM_ONE) by (nonlinear_arith);
        }
        Qubit { amp0: Amp { re: AMP_SCALE, im: 0 }, amp1: Amp { re: 0, im: 0 } }
    }

    /// The |1> basis state.
    pub fn new_one() -> (q: Qubit)
        ensures
            q.amp0 == (Amp { re: 0, im: 0 }),
            q.amp1 == (Amp { re: AMP_SCALE, im: 0 }),
            q.norm2() == NORM_ONE,
            q.in_range() && q.tightly_normalized() && q.is_normalized_spec(),
    {
        proof {
            assert((AMP_SCALE as int) * (AMP_SCALE as int) == NORM_ONE) by (nonlinear_arith);
        }
        Qubit { amp0: Amp { re: 0, im: 0 }, amp1: Amp { re: AMP_SCALE, im: 0 } }
    }

    /// |+> = (|0> + |1>) / sqrt(2).
    pub fn new_plus() -> (q: Qubit)
        ensures
            q.amp0 == (Amp { re: INV_SQRT2, im: 0 }),
            q.amp1 == (Amp { re: INV_SQRT2, im: 0 }),
            q.in_range() && q.tightly_normalized() && q.is_normalized_spec(),
    {
        proof { lemma_two_inv_sqrt2_sq(); }
        Qubit {
            amp0: Amp { re: INV_SQRT2, im: 0 },
            amp1: Amp { re: INV_SQRT2, im: 0 },
        }
    }

    /// |-> = (|0> - |1>) / sqrt(2).
    pub fn new_minus() -> (q: Qubit)
        ensures
            q.amp0 == (Amp { re: INV_SQRT2, im: 0 }),
            q.amp1.re == -INV_SQRT2 && q.amp1.im == 0,
            q.in_range() && q.tightly_normalized() && q.is_normalized_spec(),
    {
        proof {
            lemma_two_inv_sqrt2_sq();
            assert((-707_106int) * (-707_106int) == 499_998_895_236) by (nonlinear_arith);
        }
        Qubit {
            amp0: Amp { re: INV_SQRT2, im: 0 },
            amp1: Amp { re: -INV_SQRT2, im: 0 },
        }
    }

    /// |i+> = (|0> + i|1>) / sqrt(2).
    pub fn new_iplus() -> (q: Qubit)
        ensures
            q.amp0 == (Amp { re: INV_SQRT2, im: 0 }),
            q.amp1 == (Amp { re: 0, im: INV_SQRT2 }),
            q.in_range() && q.tightly_normalized() && q.is_normalized_spec(),
    {
        proof { lemma_two_inv_sqrt2_sq(); }
        Qubit {
            amp0: Amp { re: INV_SQRT2, im: 0 },
            amp1: Amp { re: 0, im: INV_SQRT2 },
        }
    }

    /// |i-> = (|0> - i|1>) / sqrt(2).
    pub fn new_iminus() -> (q: Qubit)
        ensures
            q.amp0 == (Amp { re: INV_SQRT2, im: 0 }),
            q.amp1.re == 0 && q.amp1.im == -INV_SQRT2,
            q.in_range() && q.tightly_normalized() && q.is_normalized_spec(),
    {
        proof {
            lemma_two_inv_sqrt2_sq();
            assert((-707_106int) * (-707_106int) == 499_998_895_236) by (nonlinear_arith);
        }
        Qubit {
            amp0: Amp { re: INV_SQRT2, im: 0 },
            amp1: Amp { re: 0, im: -INV_SQRT2 },
        }
    }

    /// A custom state from raw fixed-point components (amplitude of |0>
    /// is a_re + i*a_im, of |1> is b_re + i*b_im), normalized
    /// automatically by the integer square root of the raw squared norm.
    pub fn new_custom(a_re: i64, a_im: i64, b_re: i64, b_im: i64) -> (q: Qubit)
        requires
            -2_000_000 <= a_re <= 2_000_000,
            -2_000_000 <= a_im <= 2_000_000,
            -2_000_000 <= b_re <= 2_000_000,
            -2_000_000 <= b_im <= 2_000_000,
            a_re * a_re + a_im * a_im + b_re * b_re + b_im * b_im >= 10_000_000_000,
        ensures
            ({
                let root = int_sqrt(
                    (a_re * a_re + a_im * a_im + b_re * b_re + b_im * b_im) as nat,
                ) as int;
                &&& q.amp0.re == (a_re * AMP_SCALE) / root
                &&& q.amp0.im == (a_im * AMP_SCALE) / root
                &&& q.amp1.re == (b_re * AMP_SCALE) / root
                &&& q.amp1.im == (b_im * AMP_SCALE) / root
            }),
            q.in_range(),
            q.tightly_normalized() && q.is_normalized_spec(),
    {
        proof {
            assert(0 <= a_re * a_re <= 4_000_000_000_000 && 0 <= a_im * a_im
                <= 4_000_000_000_000 && 0 <= b_re * b_re <= 4_000_000_000_000 && 0 <= b_im
                * b_im <= 4_000_000_000_000) by (nonlinear_arith)
                requires
                    -2_000_000 <= a_re <= 2_000_000,
                    -2_000_000 <= a_im <= 2_000_000,
                    -2_000_000 <= b_re <= 2_000_000,
                    -2_000_000 <= b_im <= 2_000_000;
        }
        let n_raw: u64 = (sq(a_re) + sq(a_im) + sq(b_re) + sq(b_im)) as u64;
        let root = isqrt(n_raw);
        proof {
            lemma_int_sqrt_unique(n_raw as nat, root as nat);
            assert(root >= 100_000 && root <= 4_200_000) by (nonlinear_arith)
                requires
                    (root as int) * (root as int) <= n_raw as int,
                    n_raw < ((root as int) + 1) * ((root as int) + 1),
                    10_000_000_000 <= n_raw <= 17_000_000_000_000;
            lemma_comp_by_root(a_re as int, n_raw as int, root as int);
            lemma_comp_by_root(a_im as int, n_raw as int, root as int);
            lemma_comp_by_root(b_re as int, n_raw as int, root as int);
            lemma_comp_by_root(b_im as int, n_raw as int, root as int);
        }
        let q0r = scale_to_unit(a_re, root);
        let q0i = scale_to_unit(a_im, root);
        let q1r = scale_to_unit(b_re, root);
        let q1i = scale_to_unit(b_im, root);
        proof {
            lemma_unit_sq_bounds(a_re as int, root as int);
            lemma_unit_sq_bounds(a_im as int, root as int);
            lemma_unit_sq_bounds(b_re as int, root as int);
            lemma_unit_sq_bounds(b_im as int, root as int);
            let rr = root as int;
            let n = n_raw as int;
            let nn = (q0r as int) * (q0r as int) + (q0i as int) * (q0i as int) + (q1r as int)
                * (q1r as int) + (q1i as int) * (q1i as int);
            assert(rr * rr * nn <= 1_000_000_000_000 * n + 8_000_004 * (rr * rr)
                && rr * rr * nn >= 1_000_000_000_000 * n - 8_000_004 * (rr * rr))
                by (nonlinear_arith)
                requires
                    nn == (q0r as int) * (q0r as int) + (q0i as int) * (q0i as int) + (q1r
                        as int) * (q1r as int) + (q1i as int) * (q1i as int),
                    n == a_re * a_re + a_im * a_im + b_re * b_re + b_im * b_im,
                    (rr * rr) * ((q0r as int) * (q0r as int)) <= 1_000_000_000_000 * (a_re
                        * a_re) + 2_000_001 * (rr * rr),
                    (rr * rr) * ((q0r as int) * (q0r as int)) >= 1_000_000_000_000 * (a_re
                        * a_re) - 2_000_001 * (rr * rr),
                    (rr * rr) * ((q0i as int) * (q0i as int)) <= 1_000_000_000_000 * (a_im
                        * a_im) + 2_000_001 * (rr * rr),
                    (rr * rr) * ((q0i as int) * (q0i as int)) >= 1_000_000_000_000 * (a_im
                        * a_im) - 2_000_001 * (rr * rr),
                    (rr * rr) * ((q1r as int) * (q1r as int)) <= 1_000_000_000_000 * (b_re
                        * b_re) + 2_000_001 * (rr * rr),
                    (rr * rr) * ((q1r as int) * (q1r as int)) >= 1_000_000_000_000 * (b_re
                        * b_re) - 2_000_001 * (rr * rr),
                    (rr * rr) * ((q1i as int) * (q1i as int)) <= 1_000_000_000_000 * (b_im
                        * b_im) + 2_000_001 * (rr * rr),
                    (rr * rr) * ((q1i as int) * (q1i as int)) >= 1_000_000_000_000 * (b_im
                        * b_im) - 2_000_001 * (rr * rr);
            assert(NORM_ONE - NORM_TIGHT <= nn <= NORM_ONE + NORM_TIGHT) by (nonlinear_arith)
                requires
                    rr * rr * nn <= 1_000_000_000_000 * n + 8_000_004 * (rr * rr),
                    rr * rr * nn >= 1_000_000_000_000 * n - 8_000_004 * (rr * rr),
                    rr * rr <= n,
                    n < (rr + 1) * (rr + 1),
                    100_000 <= rr <= 4_200_000;
        }
        Qubit {
            amp0: Amp { re: q0r, im: q0i },
            amp1: Amp { re: q1r, im: q1i },
        }
    }

    /// Probability of measuring |0>, in parts per billion.
    pub open spec fn prob_zero_spec(self) -> int {
        self.amp0.norm_sq() / 1000
    }

    /// Probability of measuring |1>, in parts per billion.
    pub open spec fn prob_one_spec(self) -> int {
        self.amp1.norm_sq() / 1000
    }

    /// Probability of measuring |0>, in parts per billion.
    pub fn prob_zero(&self) -> (p: u64)
        requires
            self.in_range(),
        ensures
            p == self.prob_zero_spec(),
    {
        let n: u64 = (sq(self.amp0.re) + sq(self.amp0.im)) as u64;
        n / 1000
    }

    /// Probability of measuring |1>, in parts per billion.
    pub fn prob_one(&self) -> (p: u64)
        requires
            self.in_range(),
        ensures
            p == self.prob_one_spec(),
    {
        let n: u64 = (sq(self.amp1.re) + sq(self.amp1.im)) as u64;
        n / 1000
    }

    /// Whether the squared norm is 1.0 within tolerance.
    pub fn is_normalized(&self) -> (r: bool)
        requires
            self.in_range(),
        ensures
            r == self.is_normalized_spec(),
    {
        let n: i64 = sq(self.amp0.re) + sq(self.amp0.im) + sq(self.amp1.re) + sq(self.amp1.im);
        NORM_ONE - NORM_TOL <= n && n <= NORM_ONE + NORM_TOL
    }
}

/// 2 * INV_SQRT2^2, the squared norm shared by every balanced
/// superposition built from INV_SQRT2 components.
proof fn lemma_two_inv_sqrt2_sq()
    ensures
        (INV_SQRT2 as int) * (INV_SQRT2 as int) == 499_998_895_236,
{
    assert((INV_SQRT2 as int) * (INV_SQRT2 as int) == 499_998_895_236) by (nonlinear_arith);
}

impl TwoQubitState {
    /// The squared norm of the state vector.
    pub open spec fn norm2(self) -> int {
        self.c00.norm_sq() + self.c01.norm_sq() + self.c10.norm_sq() + self.c11.norm_sq()
    }

    /// All four amplitudes stay inside the arithmetic range.
    pub open spec fn in_range(self) -> bool {
        self.c00.in_range() && self.c01.in_range() && self.c10.in_range() && self.c11.in_range()
    }

    /// The squared norm is 1.0 within the library's integer tolerance.
    pub open spec fn is_normalized_spec(self) -> bool {
        NORM_ONE - NORM_TOL <= self.norm2() <= NORM_ONE + NORM_TOL
    }

    /// The tighter normalization that freshly prepared states enjoy.
    pub open spec fn tightly_normalized(self) -> bool {
        NORM_ONE - NORM_TIGHT <= self.norm2() <= NORM_ONE + NORM_TIGHT
    }

    /// The |00> basis state.
    pub fn new_zero_zero() -> (s: TwoQubitState)
        ensures
            s.c00 == (Amp { re: AMP_SCALE, im: 0 }),
            s.c01 == (Amp { re: 0, im: 0 }),
            s.c10 == (Amp { re: 0, im: 0 }),
            s.c11 == (Amp { re: 0, im: 0 }),
            s.norm2() == NORM_ONE,
            s.in_range() && s.tightly_normalized() && s.is_normalized_spec(),
    {
        proof {
            assert((AMP_SCALE as int) * (AMP_SCALE as int) == NORM_ONE) by (nonlinear_arith);
        }
        TwoQubitState {
            c00: Amp { re: AMP_SCALE, im: 0 },
            c01: Amp { re: 0, im: 0 },
            c10: Amp { re: 0, im: 0 },
            c11: Amp { re: 0, im: 0 },
        }
    }

    /// The value of the Bell state |Phi+> = (|00> + |11>) / sqrt(2).
    pub open spec fn bell_phi_plus_spec() -> TwoQubitState {
        TwoQubitState {
            c00: Amp { re: INV_SQRT2, im: 0 },
            c01: Amp { re: 0, im: 0 },
            c10: Amp { re: 0, im: 0 },
            c11: Amp { re: INV_SQRT2, im: 0 },
        }
    }

    /// The Bell state |Phi+> = (|00> + |11>) / sqrt(2), the ideal target
    /// of entanglement generation.
    pub fn new_bell_phi_plus() -> (s: TwoQubitState)
        ensures
            s == TwoQubitState::bell_phi_plus_spec(),
            s.c00 == (Amp { re: INV_SQRT2, im: 0 }),
            s.c01 == (Amp { re: 0, im: 0 }),
            s.c10 == (Amp { re: 0, im: 0 }),
            s.c11 == (Amp { re: INV_SQRT2, im: 0 }),
            s.in_range() && s.tightly_normalized() && s.is_normalized_spec(),
    {
        proof { lemma_two_inv_sqrt2_sq(); }
        TwoQubitState {
            c00: Amp { re: INV_SQRT2, im: 0 },
            c01: Amp { re: 0, im: 0 },
            c10: Amp { re: 0, im: 0 },
            c11: Amp { re: INV_SQRT2, im: 0 },
        }
    }

    /// Whether the squared norm is 1.0 within tolerance.
    pub fn is_normalized(&self) -> (r: bool)
        requires
            self.in_range(),
        ensures
            r == self.is_normalized_spec(),
    {
        let a: i64 = sq(self.c00.re) + sq(self.c00.im) + sq(self.c01.re) + sq(self.c01.im);
        let b: i64 = sq(self.c10.re) + sq(self.c10.im) + sq(self.c11.re) + sq(self.c11.im);
        let n: i64 = a + b;
        NORM_ONE - NORM_TOL <= n && n <= NORM_ONE + NORM_TOL
    }

    /// Fidelity |<self|other>|^2 with another two-qubit state, in parts
    /// per billion, clamped at 1.0.
    pub fn fidelity(&self, other: &TwoQubitState) -> (f: u64)
        requires
            self.in_range(),
            other.in_range(),
        ensures
            f == fidelity_spec(*self, *other),
            f <= BILLION,
    {
        let re: i64 = amp_prod(self.c00.re, other.c00.re) + amp_prod(self.c00.im, other.c00.im)
            + amp_prod(self.c01.re, other.c01.re) + amp_prod(self.c01.im, other.c01.im)
            + amp_prod(self.c10.re, other.c10.re) + amp_prod(self.c10.im, other.c10.im)
            + amp_prod(self.c11.re, other.c11.re) + amp_prod(self.c11.im, other.c11.im);
        let im: i64 = amp_prod(self.c00.re, other.c00.im) - amp_prod(self.c00.im, other.c00.re)
            + amp_prod(self.c01.re, other.c01.im) - amp_prod(self.c01.im, other.c01.re)
            + amp_prod(self.c10.re, other.c10.im) - amp_prod(self.c10.im, other.c10.re)
            + amp_prod(self.c11.re, other.c11.im) - amp_prod(self.c11.im, other.c11.re);
        proof {
            assert(re == inner_re(*self, *other));
            assert(im == inner_im(*self, *other));
            assert(0 <= (re as int) * (re as int) <= 0x10000000000000000000000000000
                && 0 <= (im as int) * (im as int) <= 0x10000000000000000000000000000)
                by (nonlinear_arith)
                requires
                    -72_000_000_000_000 <= re <= 72_000_000_000_000,
                    -72_000_000_000_000 <= im <= 72_000_000_000_000;
        }
        let re2: u128 = ((re as i128) * (re as i128)) as u128;
        let im2: u128 = ((im as i128) * (im as i128)) as u128;
        let raw: u128 = (re2 + im2) / 1_000_000_000_000_000;
        if raw > BILLION as u128 {
            BILLION
        } else {
            raw as u64
        }
    }
}

/// Real part of the inner product <a|b>.
pub open spec fn inner_re(a: TwoQubitState, b: TwoQubitState) -> int {
    a.c00.re * b.c00.re + a.c00.im * b.c00.im + a.c01.re * b.c01.re + a.c01.im * b.c01.im
        + a.c10.re * b.c10.re + a.c10.im * b.c10.im + a.c11.re * b.c11.re + a.c11.im * b.c11.im
}

/// Imaginary part of the inner product <a|b>.
pub open spec fn inner_im(a: TwoQubitState, b: TwoQubitState) -> int {
    a.c00.re * b.c00.im - a.c00.im * b.c00.re + a.c01.re * b.c01.im - a.c01.im * b.c01.re
        + a.c10.re * b.c10.im - a.c10.im * b.c10.re + a.c11.re * b.c11.im - a.c11.im * b.c11.re
}

/// |<a|b>|^2 in parts per billion, clamped at 1.0.
pub open spec fn fidelity_spec(a: TwoQubitState, b: TwoQubitState) -> int {
    let raw = (inner_re(a, b) * inner_re(a, b) + inner_im(a, b) * inner_im(a, b))
        / 1_000_000_000_000_000;
    if raw > BILLION as int {
        BILLION as int
    } else {
        raw
    }
}

/// Fidelity is symmetric: swapping the two states conjugates the inner
/// product, which leaves its squared magnitude unchanged.
pub proof fn lemma_fidelity_symmetric(a: TwoQubitState, b: TwoQubitState)
    ensures
        fidelity_spec(a, b) == fidelity_spec(b, a),
{
    assert(inner_re(a, b) == inner_re(b, a) && inner_im(a, b) == -inner_im(b, a))
        by (nonlinear_arith);
    assert(inner_im(a, b) * inner_im(a, b) == inner_im(b, a) * inner_im(b, a))
        by (nonlinear_arith)
        requires inner_im(a, b) == -inner_im(b, a);
}

/// The fidelity of any normalized state with itself is 1.0 within
/// 200000 parts per billion.
pub proof fn lemma_self_fidelity(a: TwoQubitState)
    requires
        a.is_normalized_spec(),
    ensures
        BILLION - 200_000 <= fidelity_spec(a, a) <= BILLION,
{
    assert(inner_im(a, a) == 0) by (nonlinear_arith);
    assert(inner_re(a, a) == a.norm2());
    let n = a.norm2();
    assert(n * n >= 999_800_010_000_000_000_000_000) by (nonlinear_arith)
        requires n >= 999_900_000_000;
    lemma_div_is_ordered(
        999_800_010_000_000_000_000_000,
        n * n,
        1_000_000_000_000_000,
    );
    assert(999_800_010_000_000_000_000_000int / 1_000_000_000_000_000 == 999_800_010);
}

} // verus!
