//! Scaled-integer sine and cosine.
//!
//! The model's trigonometry is a rational (Bhaskara-style) approximation of
//! sine on a half turn, extended to the whole circle by symmetry. It is
//! total, exactly periodic over `TAU_U`, and always within one unit in
//! magnitude; those are the properties the rest of the crate builds on.

use crate::angle::normalized_angle_unsigned_excl;
use crate::HALF_PI_U;
use crate::PI_U;
use crate::TAU_U;
use crate::UNIT;
use vstd::arithmetic::div_mod::lemma_add_mod_noop;
use vstd::arithmetic::div_mod::lemma_mod_add_multiples_vanish;
use vstd::arithmetic::div_mod::lemma_div_is_ordered;
use vstd::arithmetic::div_mod::lemma_div_multiples_vanish;
use vstd::arithmetic::div_mod::lemma_small_mod;
use vstd::prelude::*;

verus! {

/// Five times the squared half turn, rescaled: `5 * PI_U * PI_U / UNIT`.
pub const FIVE_PI_SQ: i64 = 49_348_001;

/// Largest value of `x * (PI_U - x) / UNIT` over `0 <= x <= PI_U`.
pub const SIN_ARCH_MAX: i64 = 2_467_400;

/// Rational approximation of `UNIT * sin(x / UNIT)` on the half turn
/// `0 <= x <= PI_U`.
pub open spec fn spec_sin_half(x: int) -> int {
    let t = (x * (PI_U - x)) / (UNIT as int);
    (16 * t * UNIT) / (FIVE_PI_SQ - 4 * t)
}

/// Sine of an arbitrary angle in ticks, scaled by `UNIT`: the half-turn
/// approximation on `[0, PI_U]`, mirrored with opposite sign on the second
/// half turn.
pub open spec fn spec_sin(a: int) -> int {
    let u = a % (TAU_U as int);
    if u <= PI_U {
        spec_sin_half(u)
    } else {
        -spec_sin_half(u - PI_U)
    }
}

/// Cosine of an arbitrary angle in ticks, scaled by `UNIT`: sine shifted a
/// quarter turn.
pub open spec fn spec_cos(a: int) -> int {
    spec_sin(a + HALF_PI_U)
}

proof fn lemma_arch_bounds(x: int)
    requires
        0 <= x <= PI_U,
    ensures
        0 <= (x * (PI_U - x)) / (UNIT as int) <= SIN_ARCH_MAX,
{
    assert(0 <= x * (PI_U - x) && 4 * (x * (PI_U - x)) <= PI_U * PI_U) by (nonlinear_arith)
        requires
            0 <= x <= PI_U,
    ;
    lemma_div_is_ordered(0, x * (PI_U - x), UNIT as int);
    lemma_div_is_ordered(x * (PI_U - x), 2_467_400_073_616, UNIT as int);
    assert(2_467_400_073_616int / (UNIT as int) == SIN_ARCH_MAX) by (nonlinear_arith);
}

/// The half-turn approximation stays within `[0, UNIT]`.
pub proof fn lemma_sin_half_range(x: int)
    requires
        0 <= x <= PI_U,
    ensures
        0 <= spec_sin_half(x) <= UNIT,
{
    lemma_arch_bounds(x);
    let t = (x * (PI_U - x)) / (UNIT as int);
    let den = FIVE_PI_SQ - 4 * t;
    assert(den >= FIVE_PI_SQ - 4 * SIN_ARCH_MAX);
    assert(0 <= 16 * t * UNIT && 16 * t * UNIT <= den * UNIT) by (nonlinear_arith)
        requires
            0 <= t <= SIN_ARCH_MAX,
            den == FIVE_PI_SQ - 4 * t,
    ;
    lemma_div_is_ordered(0, 16 * t * UNIT, den);
    lemma_div_is_ordered(16 * t * UNIT, den * UNIT, den);
    lemma_div_multiples_vanish(UNIT as int, den);
}

fn sin_half(x: i64) -> (r: i64)
    requires
        0 <= x <= PI_U,
    ensures
        r == spec_sin_half(x as int),
        0 <= r <= UNIT,
{
    proof {
        lemma_arch_bounds(x as int);
        lemma_sin_half_range(x as int);
        assert(0 <= x * (PI_U - x) <= PI_U * PI_U) by (nonlinear_arith)
            requires
                0 <= x <= PI_U,
        ;
    }
    let prod: i64 = x * (PI_U - x);
    let t: i64 = prod / UNIT;
    let num: i64 = 16 * t * UNIT;
    let den: i64 = FIVE_PI_SQ - 4 * t;
    num / den
}

/// Sine and cosine repeat exactly after one full turn.
pub proof fn lemma_trig_periodic(a: int)
    ensures
        spec_sin(a + TAU_U) == spec_sin(a),
        spec_cos(a + TAU_U) == spec_cos(a),
{
    lemma_mod_add_multiples_vanish(a, TAU_U as int);
    lemma_mod_add_multiples_vanish(a + HALF_PI_U, TAU_U as int);
}

/// Scaled sine, total over every angle.
pub fn sin_fp(angle: i64) -> (r: i64)
    ensures
        r == spec_sin(angle as int),
        -UNIT <= r <= UNIT,
{
    let u = normalized_angle_unsigned_excl(angle);
    if u <= PI_U {
        sin_half(u)
    } else {
        let s = sin_half(u - PI_U);
        -s
    }
}

/// Scaled cosine, total over every angle.
pub fn cos_fp(angle: i64) -> (r: i64)
    ensures
        r == spec_cos(angle as int),
        -UNIT <= r <= UNIT,
{
    let u = normalized_angle_unsigned_excl(angle);
    proof {
        lemma_add_mod_noop(angle as int, HALF_PI_U as int, TAU_U as int);
        lemma_small_mod(HALF_PI_U as nat, TAU_U as nat);
        assert((u + HALF_PI_U) % (TAU_U as int) == (angle + HALF_PI_U) % (TAU_U as int));
    }
    sin_fp(u + HALF_PI_U)
}

} // verus!
