//! Fixed-point scales shared by the whole library, and the exponential-decay
//! kernel behind both channel loss and fidelity decoherence.
//!
//! Probabilities and fidelities are `u64` values in parts per billion
//! (`BILLION` stands for 1.0).  Decay exponents are counted in steps of
//! 2^-12 nats; one step multiplies a probability by `DECAY_BASE / BILLION`,
//! a fixed-point e^(-1/4096).

use vstd::arithmetic::div_mod::{lemma_div_is_ordered, lemma_multiply_divide_lt};
use vstd::arithmetic::mul::{lemma_mul_inequality, lemma_mul_upper_bound};
use vstd::prelude::*;

verus! {

/// Fixed-point scale for probabilities and fidelities: 1.0 in parts per billion.
pub const BILLION: u64 = 1_000_000_000;

/// One decay step spans 2^-12 nats; this is round(e^(-1/4096) * BILLION).
pub const DECAY_BASE: u64 = 999_755_889;

/// Exponents of 32 nats or more (e^-32 < one part per billion) decay to zero.
pub const DECAY_CAP: u64 = 131_072;

/// BILLION * (DECAY_BASE / BILLION)^n, flooring after every step: the
/// fixed-point decay factor e^(-n/4096) in parts per billion.
pub open spec fn decay_pow(n: nat) -> nat
    decreases n,
{
    if n == 0 {
        BILLION as nat
    } else {
        (decay_pow((n - 1) as nat) * DECAY_BASE as nat) / (BILLION as nat)
    }
}

/// `decay_pow`, cut off to exactly zero from `DECAY_CAP` steps on.
pub open spec fn decay_spec(n: nat) -> nat {
    if n >= DECAY_CAP { 0 } else { decay_pow(n) }
}

/// The decay factor never exceeds 1.0.
pub proof fn lemma_decay_pow_le_billion(n: nat)
    ensures
        decay_pow(n) <= BILLION,
    decreases n,
{
    if n > 0 {
        lemma_decay_pow_le_billion((n - 1) as nat);
        lemma_mul_upper_bound(
            decay_pow((n - 1) as nat) as int,
            BILLION as int,
            DECAY_BASE as int,
            BILLION as int,
        );
        lemma_div_is_ordered(
            decay_pow((n - 1) as nat) as int * DECAY_BASE as int,
            BILLION as int * BILLION as int,
            BILLION as int,
        );
    }
}

/// One decay step never increases the factor.
pub proof fn lemma_decay_pow_step(n: nat)
    ensures
        decay_pow(n + 1) <= decay_pow(n),
{
    lemma_mul_inequality(DECAY_BASE as int, BILLION as int, decay_pow(n) as int);
    lemma_multiply_divide_lt(
        decay_pow(n) as int * DECAY_BASE as int,
        decay_pow(n) as int + 1,
        BILLION as int,
    );
}

/// The decay factor is monotonically non-increasing in the exponent.
pub proof fn lemma_decay_pow_mono(n1: nat, n2: nat)
    requires
        n1 <= n2,
    ensures
        decay_pow(n2) <= decay_pow(n1),
    decreases n2 - n1,
{
    if n1 < n2 {
        lemma_decay_pow_mono(n1, (n2 - 1) as nat);
        lemma_decay_pow_step((n2 - 1) as nat);
    }
}

/// One decay step strictly shrinks a factor that is still positive.
pub proof fn lemma_decay_pow_step_strict(n: nat)
    requires
        decay_pow(n) > 0,
    ensures
        decay_pow(n + 1) < decay_pow(n),
{
    lemma_mul_inequality(DECAY_BASE as int, BILLION as int - 1, decay_pow(n) as int);
    assert(decay_pow(n) as int * (BILLION as int - 1) < decay_pow(n) as int * BILLION as int)
        by (nonlinear_arith)
        requires decay_pow(n) > 0;
    lemma_multiply_divide_lt(
        decay_pow(n) as int * DECAY_BASE as int,
        decay_pow(n) as int,
        BILLION as int,
    );
}

/// While the decay factor is positive, it is strictly decreasing.
pub proof fn lemma_decay_pow_strict(n1: nat, n2: nat)
    requires
        n1 < n2,
        decay_pow(n1) > 0,
    ensures
        decay_pow(n2) < decay_pow(n1),
{
    lemma_decay_pow_step_strict(n1);
    lemma_decay_pow_mono(n1 + 1, n2);
}

/// Monotonicity carries over to the capped decay factor.
pub proof fn lemma_decay_mono(n1: nat, n2: nat)
    requires
        n1 <= n2,
    ensures
        decay_spec(n2) <= decay_spec(n1),
{
    if n2 < DECAY_CAP {
        lemma_decay_pow_mono(n1, n2);
    }
}

/// The capped decay factor is strictly decreasing wherever it is positive.
pub proof fn lemma_decay_strict(n1: nat, n2: nat)
    requires
        n1 < n2,
        decay_spec(n1) > 0,
    ensures
        decay_spec(n2) < decay_spec(n1),
{
    if n2 < DECAY_CAP {
        lemma_decay_pow_strict(n1, n2);
    }
}

/// Compute the capped decay factor `decay_spec(exponent)` by repeated
/// fixed-point multiplication.
pub fn decay_factor(exponent: u64) -> (r: u64)
    ensures
        r == decay_spec(exponent as nat),
        r <= BILLION,
{
    if exponent >= DECAY_CAP {
        proof { lemma_decay_pow_le_billion(exponent as nat); }
        return 0;
    }
    let mut acc: u64 = BILLION;
    let mut i: u64 = 0;
    while i < exponent
        invariant
            i <= exponent,
            exponent < DECAY_CAP,
            acc == decay_pow(i as nat),
            acc <= BILLION,
        decreases exponent - i,
    {
        proof {
            lemma_mul_upper_bound(acc as int, BILLION as int, DECAY_BASE as int, BILLION as int);
            lemma_div_is_ordered(
                acc as int * DECAY_BASE as int,
                BILLION as int * BILLION as int,
                BILLION as int,
            );
        }
        acc = ((acc as u128 * DECAY_BASE as u128) / (BILLION as u128)) as u64;
        i = i + 1;
    }
    acc
}

/// Fixed-point product of two probabilities: (a * b) / BILLION, floored.
pub open spec fn mul_ppb_spec(a: nat, b: nat) -> nat {
    (a * b) / (BILLION as nat)
}

/// Multiply two probabilities in parts per billion.
pub fn mul_ppb(a: u64, b: u64) -> (r: u64)
    requires
        a <= BILLION,
        b <= BILLION,
    ensures
        r == mul_ppb_spec(a as nat, b as nat),
        r <= BILLION,
        r <= a,
        r <= b,
        b == BILLION ==> r == a,
        a == BILLION ==> r == b,
{
    proof {
        lemma_mul_upper_bound(a as int, BILLION as int, b as int, BILLION as int);
        lemma_div_is_ordered(
            a as int * b as int,
            BILLION as int * BILLION as int,
            BILLION as int,
        );
        lemma_mul_inequality(b as int, BILLION as int, a as int);
        lemma_div_is_ordered(
            a as int * b as int,
            a as int * BILLION as int,
            BILLION as int,
        );
        assert(a as int * BILLION as int / BILLION as int == a as int) by (nonlinear_arith);
        lemma_mul_inequality(a as int, BILLION as int, b as int);
        assert(a as int * b as int == b as int * a as int) by (nonlinear_arith);
        lemma_div_is_ordered(
            b as int * a as int,
            b as int * BILLION as int,
            BILLION as int,
        );
        assert(b as int * BILLION as int / BILLION as int == b as int) by (nonlinear_arith);
        if b == BILLION {
            assert(a as int * b as int == a as int * BILLION as int);
            assert(a as int * BILLION as int / BILLION as int == a as int) by (nonlinear_arith);
        }
        if a == BILLION {
            assert(a as int * b as int == b as int * BILLION as int) by (nonlinear_arith)
                requires a == BILLION;
            assert(b as int * BILLION as int / BILLION as int == b as int) by (nonlinear_arith);
        }
    }
    ((a as u128 * b as u128) / (BILLION as u128)) as u64
}

/// A fixed-point product with a smaller factor is no larger.
pub proof fn lemma_mul_ppb_mono(a: nat, b1: nat, b2: nat)
    requires
        b1 <= b2,
    ensures
        mul_ppb_spec(a, b1) <= mul_ppb_spec(a, b2),
{
    lemma_mul_inequality(b1 as int, b2 as int, a as int);
    lemma_div_is_ordered(a as int * b1 as int, a as int * b2 as int, BILLION as int);
}

/// Scaling by a full-scale factor is exact: 1.0 times b is b.
pub proof fn lemma_mul_ppb_full(b: nat)
    ensures
        mul_ppb_spec(BILLION as nat, b) == b,
{
    assert(BILLION as int * b as int / BILLION as int == b as int) by (nonlinear_arith);
}

} // verus!
