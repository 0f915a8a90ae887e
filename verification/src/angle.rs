//! Normalization of angles into canonical ranges.
//!
//! Three wrap policies are offered: half-open unsigned `[0, TAU_U)`, closed
//! unsigned `[0, TAU_U]` (which can represent a stop at exactly one full
//! turn), and signed `(-PI_U, PI_U]`.

use crate::PI_U;
use crate::TAU_U;
use vstd::prelude::*;

verus! {

/// Canonical representative of `a` in `[0, TAU_U)`: the Euclidean remainder
/// of `a` modulo a full turn.
pub open spec fn wrap_unsigned(a: int) -> int {
    a % (TAU_U as int)
}

/// Canonical representative of `a` in `(-PI_U, PI_U]`.
pub open spec fn wrap_signed(a: int) -> int {
    if wrap_unsigned(a) > PI_U {
        wrap_unsigned(a) - TAU_U
    } else {
        wrap_unsigned(a)
    }
}

/// Wrap an angle to the half-open range `[0, TAU_U)`.
///
/// Total over all inputs, including large negative multiples of a turn; the
/// result is congruent to the input modulo one full turn.
pub fn normalized_angle_unsigned_excl(angle: i64) -> (r: i64)
    ensures
        r == wrap_unsigned(angle as int),
        0 <= r < TAU_U,
{
    let m: i64 = angle % TAU_U;
    if m < 0 {
        m + TAU_U
    } else {
        m
    }
}

/// Wrap an angle to the closed range `[0, TAU_U]`.
///
/// Inputs already inside the closed range are returned unchanged, so a full
/// turn stays distinct from zero; anything else wraps as the exclusive rule
/// does.
pub fn normalized_angle_unsigned_incl(angle: i64) -> (r: i64)
    ensures
        r == (if 0 <= angle <= TAU_U {
            angle as int
        } else {
            wrap_unsigned(angle as int)
        }),
        0 <= r <= TAU_U,
{
    if 0 <= angle && angle <= TAU_U {
        angle
    } else {
        normalized_angle_unsigned_excl(angle)
    }
}

/// Wrap an angle to the signed range `(-PI_U, PI_U]`.
pub fn normalized_angle(angle: i64) -> (r: i64)
    ensures
        r == wrap_signed(angle as int),
        -PI_U < r <= PI_U,
{
    let u = normalized_angle_unsigned_excl(angle);
    if u > PI_U {
        u - TAU_U
    } else {
        u
    }
}

} // verus!
