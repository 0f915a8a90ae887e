//! The polar shape evaluator: a descriptor of a knob outline and its radius
//! multiplier at a given angle.
//!
//! Radius multipliers are scaled by `UNIT` and clamped into
//! `[0, RADIUS_MAX]`, so every outline is finite; the asymptotes of the
//! square and polygon formulas are cut off by clamping the divisor instead
//! of letting a division blow up.

use crate::angle::normalized_angle;
use crate::angle::normalized_angle_unsigned_excl;
use crate::angle::wrap_signed;
use crate::fxp::iabs;
use crate::fxp::pow_unit;
use crate::fxp::spec_pow_unit;
use crate::fxp::tdiv;
use crate::trig::cos_fp;
use crate::trig::sin_fp;
use crate::trig::spec_cos;
use crate::trig::spec_sin;
use crate::HALF_PI_U;
use crate::TAU_U;
use crate::UNIT;
use vstd::arithmetic::div_mod::lemma_div_is_ordered_by_denominator;
use vstd::arithmetic::div_mod::lemma_mod_add_multiples_vanish;
use vstd::arithmetic::div_mod::lemma_div_multiples_vanish;
use vstd::arithmetic::div_mod::lemma_div_pos_is_pos;
use vstd::prelude::*;

verus! {

/// Ceiling for radius multipliers: four units.
pub const RADIUS_MAX: i64 = 4_000_000;

/// Largest accepted number of polygon sides.
pub const SIDES_MAX: usize = 1_000_000_000;

/// Largest accepted super-polygon exponent: two units.
pub const SUPER_EXPONENT_MAX: i64 = 2_000_000;

/// A radius multiplier clamped into `[0, RADIUS_MAX]`.
pub open spec fn clamp_radius(r: int) -> int {
    if r < 0 {
        0
    } else if r > RADIUS_MAX {
        RADIUS_MAX as int
    } else {
        r
    }
}

fn clamp_radius_exec(r: i64) -> (c: i64)
    ensures
        c == clamp_radius(r as int),
{
    if r < 0 {
        0
    } else if r > RADIUS_MAX {
        RADIUS_MAX
    } else {
        r
    }
}

/// One unit divided by `d`, with the divisor floored at one so the result
/// is always defined: `UNIT * UNIT / max(d, 1)`.
pub open spec fn recip_unit(d: int) -> int {
    (UNIT * UNIT) / (if d < 1 {
        1int
    } else {
        d
    })
}

fn recip_unit_exec(d: i64) -> (r: i64)
    ensures
        r == recip_unit(d as int),
        0 <= r <= UNIT * UNIT,
        d >= UNIT ==> r <= UNIT,
        d <= UNIT ==> r >= UNIT,
{
    let dd: i64 = if d < 1 {
        1
    } else {
        d
    };
    proof {
        lemma_div_pos_is_pos(UNIT * UNIT, dd as int);
        lemma_div_is_ordered_by_denominator(UNIT * UNIT, 1, dd as int);
        lemma_div_multiples_vanish(UNIT as int, UNIT as int);
        if dd >= UNIT {
            lemma_div_is_ordered_by_denominator(UNIT * UNIT, UNIT as int, dd as int);
        }
        if dd <= UNIT {
            lemma_div_is_ordered_by_denominator(UNIT * UNIT, dd as int, UNIT as int);
        }
    }
    (UNIT * UNIT) / dd
}

fn abs_unit(x: i64) -> (r: i64)
    requires
        -UNIT <= x <= UNIT,
    ensures
        r == iabs(x as int),
        0 <= r <= UNIT,
{
    if x < 0 {
        -x
    } else {
        x
    }
}

/// Radius of the axis-aligned unit square: the smaller of the two
/// reciprocals of `|cos|` and `|sin|`.
pub open spec fn spec_square_radius(theta: int) -> int {
    let rc = recip_unit(iabs(spec_cos(theta)));
    let rs = recip_unit(iabs(spec_sin(theta)));
    clamp_radius(
        if rc <= rs {
            rc
        } else {
            rs
        },
    )
}

/// `(c^e + s^e)^(-1/e)`, all scaled by `UNIT`: the superellipse radius for
/// precomputed magnitudes `c` and `s` of cosine and sine.
pub open spec fn spec_inv_pow_sum(c: int, s: int, e: int) -> int {
    let z = spec_pow_unit(c, e) + spec_pow_unit(s, e);
    let inv_e = recip_unit(e);
    if z >= UNIT {
        spec_pow_unit(recip_unit(z), inv_e)
    } else {
        clamp_radius(recip_unit(spec_pow_unit(z, inv_e)))
    }
}

fn inv_pow_sum(c: i64, s: i64, e: i64) -> (r: i64)
    requires
        0 <= c <= UNIT,
        0 <= s <= UNIT,
        1 <= e,
    ensures
        r == spec_inv_pow_sum(c as int, s as int, e as int),
        0 <= r <= RADIUS_MAX,
{
    let a = pow_unit(c, e);
    let b = pow_unit(s, e);
    let z = a + b;
    let inv_e = recip_unit_exec(e);
    if z >= UNIT {
        pow_unit(recip_unit_exec(z), inv_e)
    } else {
        let w = pow_unit(z, inv_e);
        clamp_radius_exec(recip_unit_exec(w))
    }
}

/// Regular polygon radius. The classical inverse-trigonometric form
/// `1 / cos(asin(cos(n * theta / 2)) * 2 / n)` is evaluated through the
/// identity `asin(cos(m)) == HALF_PI_U - |m|` for `m` wrapped to the signed
/// range, which is exact here and needs no clamping of an `asin` argument.
pub open spec fn spec_polygon_radius(n: int, theta: int) -> int {
    let u = theta % (TAU_U as int);
    let m = (n * u) / 2;
    let d = iabs(wrap_signed(m));
    let phi = tdiv(2 * (HALF_PI_U - d), n);
    clamp_radius(recip_unit(spec_cos(phi)))
}

fn polygon_radius(n: usize, theta: i64) -> (r: i64)
    requires
        3 <= n <= SIDES_MAX,
    ensures
        r == spec_polygon_radius(n as int, theta as int),
        0 <= r <= RADIUS_MAX,
{
    let u = normalized_angle_unsigned_excl(theta);
    proof {
        assert((n as i64) * u <= (SIDES_MAX as int) * (TAU_U as int) && 0 <= (n as i64) * u)
            by (nonlinear_arith)
            requires
                0 <= (n as i64) <= SIDES_MAX,
                0 <= u <= TAU_U,
        ;
    }
    let m: i64 = ((n as i64) * u) / 2;
    let mbar = normalized_angle(m);
    let d: i64 = if mbar < 0 {
        -mbar
    } else {
        mbar
    };
    let fnum: i64 = HALF_PI_U - d;
    let phi: i64 = if fnum >= 0 {
        (2 * fnum) / (n as i64)
    } else {
        -((2 * (-fnum)) / (n as i64))
    };
    let cv = cos_fp(phi);
    clamp_radius_exec(recip_unit_exec(cv))
}

/// Superformula radius: the superellipse form applied to the angle
/// multiplied by a quarter of the side count. A zero exponent collapses the
/// radius to zero.
pub open spec fn spec_super_radius(n: int, p: int, theta: int) -> int {
    if p == 0 {
        0
    } else {
        let u = theta % (TAU_U as int);
        let m = (n * u) / 4;
        spec_inv_pow_sum(iabs(spec_cos(m)), iabs(spec_sin(m)), p)
    }
}

fn super_radius(n: usize, p: i64, theta: i64) -> (r: i64)
    requires
        3 <= n <= SIDES_MAX,
        0 <= p <= SUPER_EXPONENT_MAX,
    ensures
        r == spec_super_radius(n as int, p as int, theta as int),
        0 <= r <= RADIUS_MAX,
{
    if p == 0 {
        0
    } else {
        let u = normalized_angle_unsigned_excl(theta);
        proof {
            assert((n as i64) * u <= (SIDES_MAX as int) * (TAU_U as int) && 0 <= (n as i64) * u)
                by (nonlinear_arith)
                requires
                    0 <= (n as i64) <= SIDES_MAX,
                    0 <= u <= TAU_U,
            ;
        }
        let m: i64 = ((n as i64) * u) / 4;
        let c = abs_unit(cos_fp(m));
        let s = abs_unit(sin_fp(m));
        inv_pow_sum(c, s, p)
    }
}

/// A polar function defining the shape of a knob widget, as a radius
/// multiplier around a unit circle.
#[derive(Clone, Copy, PartialEq, Eq, Structural, Debug)]
pub enum KnobShape {
    /// Constant multiplier of one unit.
    Circle,
    /// Axis-aligned square circumscribing the unit circle.
    Square,
    /// Superellipse with the given positive exponent in ticks.
    Squircle(i64),
    /// Regular polygon with the given number of sides.
    Polygon(usize),
    /// Superformula blend with the given side count and an exponent between
    /// zero and two units.
    SuperPolygon(usize, i64),
}

/// Radius multiplier of a shape at an angle.
pub open spec fn spec_eval(shape: KnobShape, theta: int) -> int {
    match shape {
        KnobShape::Circle => UNIT as int,
        KnobShape::Square => spec_square_radius(theta),
        KnobShape::Squircle(e) => spec_inv_pow_sum(
            iabs(spec_cos(theta)),
            iabs(spec_sin(theta)),
            e as int,
        ),
        KnobShape::Polygon(n) => spec_polygon_radius(n as int, theta),
        KnobShape::SuperPolygon(n, p) => spec_super_radius(n as int, p as int, theta),
    }
}

impl KnobShape {
    /// Configuration validity: a squircle exponent must be positive, a
    /// polygon needs at least three sides, and a super-polygon exponent
    /// stays between zero and two units. Side counts are capped so the
    /// angle arithmetic cannot overflow.
    pub open spec fn wf(&self) -> bool {
        match *self {
            KnobShape::Circle => true,
            KnobShape::Square => true,
            KnobShape::Squircle(e) => 1 <= e,
            KnobShape::Polygon(n) => 3 <= n <= SIDES_MAX,
            KnobShape::SuperPolygon(n, p) => 3 <= n <= SIDES_MAX && 0 <= p
                <= SUPER_EXPONENT_MAX,
        }
    }

    /// Runtime check of `wf`, for callers that take descriptors from
    /// outside and must reject bad configuration up front.
    pub fn is_well_formed(&self) -> (b: bool)
        ensures
            b == self.wf(),
    {
        match *self {
            KnobShape::Circle => true,
            KnobShape::Square => true,
            KnobShape::Squircle(e) => 1 <= e,
            KnobShape::Polygon(n) => 3 <= n && n <= SIDES_MAX,
            KnobShape::SuperPolygon(n, p) => 3 <= n && n <= SIDES_MAX && 0 <= p && p
                <= SUPER_EXPONENT_MAX,
        }
    }

    /// The radius multiplier of this shape at angle `theta` (in ticks).
    ///
    /// The circle is exactly one unit everywhere, and the square never
    /// falls below one unit: it circumscribes the inscribed circle.
    pub fn eval(&self, theta: i64) -> (r: i64)
        requires
            self.wf(),
        ensures
            r == spec_eval(*self, theta as int),
            0 <= r <= RADIUS_MAX,
            self is Circle ==> r == UNIT,
            self is Square ==> r >= UNIT,
    {
        match *self {
            KnobShape::Circle => UNIT,
            KnobShape::Square => {
                let c = abs_unit(cos_fp(theta));
                let s = abs_unit(sin_fp(theta));
                let rc = recip_unit_exec(c);
                let rs = recip_unit_exec(s);
                let m = if rc <= rs {
                    rc
                } else {
                    rs
                };
                clamp_radius_exec(m)
            },
            KnobShape::Squircle(e) => {
                let c = abs_unit(cos_fp(theta));
                let s = abs_unit(sin_fp(theta));
                inv_pow_sum(c, s, e)
            },
            KnobShape::Polygon(n) => polygon_radius(n, theta),
            KnobShape::SuperPolygon(n, p) => super_radius(n, p, theta),
        }
    }
}

/// Every built-in shape's radius multiplier repeats exactly after one
/// full turn, whatever the descriptor's parameters.
pub proof fn lemma_eval_periodic(shape: KnobShape, theta: int)
    ensures
        spec_eval(shape, theta + TAU_U) == spec_eval(shape, theta),
{
    crate::trig::lemma_trig_periodic(theta);
    lemma_mod_add_multiples_vanish(theta, TAU_U as int);
}

/// The capability "angle to radius multiplier": the painters are generic
/// over it, so a caller-supplied radius function can drive them exactly as
/// the built-in descriptors do.
pub trait PolarShape {
    /// Configuration validity of the shape.
    spec fn shape_wf(&self) -> bool;

    /// The radius multiplier at an angle, as a mathematical function.
    spec fn radius_spec(&self, theta: int) -> int;

    /// Evaluate the radius multiplier at `theta` ticks.
    fn radius_at(&self, theta: i64) -> (r: i64)
        requires
            self.shape_wf(),
        ensures
            r == self.radius_spec(theta as int),
            0 <= r <= RADIUS_MAX,
    ;
}

impl PolarShape for KnobShape {
    open spec fn shape_wf(&self) -> bool {
        self.wf()
    }

    open spec fn radius_spec(&self, theta: int) -> int {
        spec_eval(*self, theta)
    }

    fn radius_at(&self, theta: i64) -> (r: i64) {
        self.eval(theta)
    }
}

} // verus!
