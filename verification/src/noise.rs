//! Exponential fidelity decay: F(t) = F0 * e^(-t / T_coh) in fixed point.
//!
//! Decoherence acts on the scalar fidelity tracked alongside a stored
//! state, never on the state vector itself.

use crate::numeric::{
    decay_spec, decay_factor, lemma_decay_mono, lemma_decay_strict, lemma_mul_ppb_full,
    lemma_mul_ppb_mono, mul_ppb, mul_ppb_spec, BILLION, DECAY_CAP,
};
use vstd::arithmetic::div_mod::{lemma_div_by_multiple, lemma_div_is_ordered};
use vstd::arithmetic::mul::lemma_mul_inequality;
use vstd::prelude::*;

verus! {

/// The decay exponent, in 2^-12 nat steps, accumulated after `elapsed`
/// ticks under coherence time `coherence` ticks.
pub open spec fn decay_exponent(elapsed: nat, coherence: nat) -> nat {
    (elapsed * 4096) / coherence
}

/// F0 scaled by the capped decay factor for the elapsed time.
pub open spec fn decohered_fidelity(initial: nat, elapsed: nat, coherence: nat) -> nat {
    mul_ppb_spec(initial, decay_spec(decay_exponent(elapsed, coherence)))
}

/// Fidelity after exponential decoherence: initial_fidelity * e^(-t/T),
/// all in parts per billion, times in ticks.
pub fn fidelity_after_decoherence(initial_fidelity: u64, elapsed_time: u64, coherence_time: u64)
    -> (f: u64)
    requires
        initial_fidelity <= BILLION,
        coherence_time > 0,
    ensures
        f == decohered_fidelity(
            initial_fidelity as nat,
            elapsed_time as nat,
            coherence_time as nat,
        ),
        f <= initial_fidelity,
        elapsed_time == 0 ==> f == initial_fidelity,
{
    let e: u128 = (elapsed_time as u128 * 4096) / (coherence_time as u128);
    let exponent: u64 = if e >= DECAY_CAP as u128 {
        DECAY_CAP
    } else {
        e as u64
    };
    proof {
        assert(decay_spec(exponent as nat)
            == decay_spec(decay_exponent(elapsed_time as nat, coherence_time as nat)));
    }
    let d = decay_factor(exponent);
    mul_ppb(initial_fidelity, d)
}

/// Decohered fidelity never grows with elapsed time.
pub proof fn lemma_decoherence_monotone(initial: nat, t1: nat, t2: nat, coherence: nat)
    requires
        t1 <= t2,
        coherence > 0,
    ensures
        decohered_fidelity(initial, t2, coherence) <= decohered_fidelity(initial, t1, coherence),
{
    lemma_mul_inequality(t1 as int, t2 as int, 4096);
    lemma_div_is_ordered(t1 as int * 4096, t2 as int * 4096, coherence as int);
    lemma_decay_mono(decay_exponent(t1, coherence), decay_exponent(t2, coherence));
    lemma_mul_ppb_mono(
        initial,
        decay_spec(decay_exponent(t2, coherence)),
        decay_spec(decay_exponent(t1, coherence)),
    );
}

/// At full initial fidelity the decohered fidelity is the decay factor
/// itself, so it strictly decreases whenever the decay exponent grows,
/// for as long as it has not reached zero.
pub proof fn lemma_decoherence_strict(t1: nat, t2: nat, coherence: nat)
    requires
        coherence > 0,
        decay_exponent(t1, coherence) < decay_exponent(t2, coherence),
        decohered_fidelity(BILLION as nat, t1, coherence) > 0,
    ensures
        decohered_fidelity(BILLION as nat, t2, coherence)
            < decohered_fidelity(BILLION as nat, t1, coherence),
{
    lemma_mul_ppb_full(decay_spec(decay_exponent(t1, coherence)));
    lemma_mul_ppb_full(decay_spec(decay_exponent(t2, coherence)));
    lemma_decay_strict(decay_exponent(t1, coherence), decay_exponent(t2, coherence));
}

/// In the limit the fidelity vanishes: 32 coherence times in, it is
/// exactly zero.
pub proof fn lemma_decoherence_limit(initial: nat, t: nat, coherence: nat)
    requires
        coherence > 0,
        t >= 32 * coherence,
    ensures
        decohered_fidelity(initial, t, coherence) == 0,
{
    assert(t * 4096 >= (DECAY_CAP as int) * coherence) by (nonlinear_arith)
        requires t >= 32 * coherence && coherence > 0;
    lemma_div_by_multiple(DECAY_CAP as int, coherence as int);
    lemma_div_is_ordered(
        (DECAY_CAP as int) * (coherence as int),
        t as int * 4096,
        coherence as int,
    );
    assert(decay_spec(decay_exponent(t, coherence)) == 0);
    assert(initial * 0 == 0) by (nonlinear_arith);
    assert(mul_ppb_spec(initial, 0) == 0);
}

} // verus!
