//! Scaled-integer arithmetic helpers: rescaling multiplication, integer
//! square root, and a fixed-point power function for exponents given in
//! ticks of `UNIT`.

use crate::UNIT;
use vstd::arithmetic::div_mod::lemma_div_is_ordered;
use vstd::arithmetic::div_mod::lemma_div_multiples_vanish;
use vstd::prelude::*;

verus! {

/// Largest left operand accepted by `mul_div_unit`.
pub const MUL_LEFT_MAX: i64 = 4_000_000_000;

/// Largest right operand accepted by `mul_div_unit`.
pub const MUL_RIGHT_MAX: i64 = 2_000_000_000;

/// Denominator of the binary fraction used for fractional exponents.
pub const FRAC_DENOM: i64 = 1_048_576;

/// Highest bit weight of the binary fraction used for fractional exponents.
pub const FRAC_TOP: i64 = 524_288;

/// The product of two scaled values, rescaled back down: `a * b / UNIT`.
pub open spec fn mdu(a: int, b: int) -> int {
    (a * b) / (UNIT as int)
}

/// Truncating (round toward zero) division, the semantics of `/` on the
/// machine integers; agrees with Euclidean division when the dividend is
/// non-negative.
pub open spec fn tdiv(a: int, b: int) -> int {
    if a >= 0 {
        a / b
    } else {
        -((-a) / b)
    }
}

/// Magnitude of an integer.
pub open spec fn iabs(a: int) -> int {
    if a >= 0 {
        a
    } else {
        -a
    }
}

pub fn mul_div_unit(a: i64, b: i64) -> (r: i64)
    requires
        0 <= a <= MUL_LEFT_MAX,
        0 <= b <= MUL_RIGHT_MAX,
    ensures
        r == mdu(a as int, b as int),
        0 <= r,
        r * UNIT <= a * b,
{
    proof {
        assert(a * b <= MUL_LEFT_MAX * MUL_RIGHT_MAX && 0 <= a * b) by (nonlinear_arith)
            requires
                0 <= a <= MUL_LEFT_MAX,
                0 <= b <= MUL_RIGHT_MAX,
        ;
        assert(0 <= (a * b) / (UNIT as int) && ((a * b) / (UNIT as int)) * UNIT <= a * b)
            by (nonlinear_arith)
            requires
                0 <= a * b,
        ;
    }
    let p: i64 = a * b;
    p / UNIT
}

/// Both operands at most `UNIT` keeps the rescaled product at most `UNIT`.
pub proof fn lemma_mdu_unit_range(a: int, b: int)
    requires
        0 <= a <= UNIT,
        0 <= b <= UNIT,
    ensures
        0 <= mdu(a, b) <= UNIT,
{
    assert(0 <= a * b <= UNIT * UNIT) by (nonlinear_arith)
        requires
            0 <= a <= UNIT,
            0 <= b <= UNIT,
    ;
    lemma_div_is_ordered(0, a * b, UNIT as int);
    lemma_div_is_ordered(a * b, UNIT * UNIT, UNIT as int);
    lemma_div_multiples_vanish(UNIT as int, UNIT as int);
}

/// Whether `r` is the integer square root of `v`.
pub open spec fn is_sqrt(v: int, r: int) -> bool {
    0 <= r && r * r <= v && v < (r + 1) * (r + 1)
}

/// The integer square root: the unique `r` with `r * r <= v < (r + 1)^2`.
pub open spec fn spec_isqrt(v: int) -> int {
    choose|r: int| #[trigger] is_sqrt(v, r)
}

/// At most one integer satisfies `is_sqrt`, so `spec_isqrt` names it.
pub proof fn lemma_sqrt_unique(v: int, r: int)
    requires
        is_sqrt(v, r),
    ensures
        spec_isqrt(v) == r,
{
    assert(exists|x: int| #[trigger] is_sqrt(v, x));
    let s = spec_isqrt(v);
    assert(is_sqrt(v, s));
    assert(s == r) by (nonlinear_arith)
        requires
            is_sqrt(v, s),
            is_sqrt(v, r),
    ;
}

/// Integer square root by bisection.
pub fn isqrt(v: i64) -> (r: i64)
    requires
        0 <= v <= UNIT * UNIT,
    ensures
        r == spec_isqrt(v as int),
        is_sqrt(v as int, r as int),
        0 <= r <= UNIT,
{
    let mut lo: i64 = 0;
    let mut hi: i64 = UNIT;
    proof {
        assert(v < (UNIT + 1) * (UNIT + 1)) by (nonlinear_arith)
            requires
                v <= UNIT * UNIT,
        ;
    }
    while lo < hi
        invariant
            0 <= lo <= hi <= UNIT,
            lo * lo <= v,
            v < (hi + 1) * (hi + 1),
        decreases hi - lo,
    {
        let mid: i64 = lo + (hi - lo + 1) / 2;
        proof {
            assert(lo < mid <= hi);
            assert(mid * mid <= UNIT * UNIT) by (nonlinear_arith)
                requires
                    0 <= mid <= UNIT,
            ;
        }
        let sq: i64 = mid * mid;
        if sq <= v {
            lo = mid;
        } else {
            hi = mid - 1;
        }
    }
    proof {
        lemma_sqrt_unique(v as int, lo as int);
    }
    lo
}

/// Square root of a scaled value: `isqrt(y * UNIT)`, so that squaring the
/// result and rescaling gives back roughly `y`.
pub fn isqrt_scaled(y: i64) -> (r: i64)
    requires
        0 <= y <= UNIT,
    ensures
        r == spec_isqrt(y * UNIT),
        0 <= r <= UNIT,
{
    proof {
        assert(0 <= y * UNIT <= UNIT * UNIT) by (nonlinear_arith)
            requires
                0 <= y <= UNIT,
        ;
    }
    isqrt(y * UNIT)
}

/// Tail recursion mirroring the square-and-multiply loop for the integer
/// part of an exponent.
pub open spec fn powi_iter(acc: int, base: int, k: nat) -> int
    decreases k,
{
    if k == 0 {
        acc
    } else if k % 2 == 1 {
        powi_iter(mdu(acc, base), mdu(base, base), k / 2)
    } else {
        powi_iter(acc, mdu(base, base), k / 2)
    }
}

/// Tail recursion mirroring the iterated-square-root loop for the binary
/// fraction `t / FRAC_DENOM` of an exponent; `p` is the weight of the bit
/// examined next.
pub open spec fn powf_iter(acc: int, y: int, t: int, p: int) -> int
    decreases p,
{
    if p <= 0 {
        acc
    } else {
        let y2 = spec_isqrt(y * UNIT);
        let acc2 = if (t / p) % 2 == 1 {
            mdu(acc, y2)
        } else {
            acc
        };
        powf_iter(acc2, y2, t, p / 2)
    }
}

/// `x` raised to the power `e / UNIT`, all scaled by `UNIT`; the fractional
/// part of the exponent is quantized to `FRAC_DENOM`ths.
pub open spec fn spec_pow_unit(x: int, e: int) -> int {
    let ipart = powi_iter(UNIT as int, x, (e / (UNIT as int)) as nat);
    let t = ((e % (UNIT as int)) * FRAC_DENOM) / (UNIT as int);
    let fpart = powf_iter(UNIT as int, x, t, FRAC_TOP as int);
    mdu(ipart, fpart)
}

/// Fixed-point power: `x` (at most one unit) raised to the non-negative
/// exponent `e / UNIT`.
pub fn pow_unit(x: i64, e: i64) -> (r: i64)
    requires
        0 <= x <= UNIT,
        0 <= e,
    ensures
        r == spec_pow_unit(x as int, e as int),
        0 <= r <= UNIT,
{
    let ghost n0: nat = ((e as int) / (UNIT as int)) as nat;
    let mut acc: i64 = UNIT;
    let mut base: i64 = x;
    let mut k: i64 = e / UNIT;
    while k > 0
        invariant
            0 <= acc <= UNIT,
            0 <= base <= UNIT,
            0 <= k,
            powi_iter(acc as int, base as int, k as nat) == powi_iter(
                UNIT as int,
                x as int,
                n0,
            ),
        decreases k,
    {
        proof {
            lemma_mdu_unit_range(acc as int, base as int);
            lemma_mdu_unit_range(base as int, base as int);
        }
        if k % 2 == 1 {
            acc = mul_div_unit(acc, base);
        }
        base = mul_div_unit(base, base);
        k = k / 2;
    }
    let ipart: i64 = acc;

    let f: i64 = e % UNIT;
    let t: i64 = (f * FRAC_DENOM) / UNIT;
    let ghost t0: int = t as int;
    let mut fac: i64 = UNIT;
    let mut y: i64 = x;
    let mut p: i64 = FRAC_TOP;
    while p > 0
        invariant
            0 <= fac <= UNIT,
            0 <= y <= UNIT,
            0 <= p <= FRAC_TOP,
            0 <= t,
            powf_iter(fac as int, y as int, t as int, p as int) == powf_iter(
                UNIT as int,
                x as int,
                t0,
                FRAC_TOP as int,
            ),
        decreases p,
    {
        y = isqrt_scaled(y);
        proof {
            lemma_mdu_unit_range(fac as int, y as int);
        }
        if (t / p) % 2 == 1 {
            fac = mul_div_unit(fac, y);
        }
        p = p / 2;
    }
    proof {
        lemma_mdu_unit_range(ipart as int, fac as int);
    }
    mul_div_unit(ipart, fac)
}

} // verus!
