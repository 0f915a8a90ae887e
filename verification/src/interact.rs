//! The knob interaction model: drag deltas to angle changes, the wrap and
//! clamp pipeline, and end-of-drag snapping.
//!
//! The live angle value is owned by the caller and rewritten in place. The
//! clamp pipeline applies the angle mode's wrap first, then the `max` stop,
//! then the `min` stop; with an inverted configuration (`min > max`) the
//! `min` clamp is applied last and wins, a documented quirk that is kept.

use crate::angle::normalized_angle;
use crate::angle::normalized_angle_unsigned_excl;
use crate::angle::wrap_signed;
use crate::angle::wrap_unsigned;
use crate::fxp::tdiv;
use crate::HALF_PI_U;
use crate::PI_U;
use crate::UNIT;
use vstd::arithmetic::div_mod::lemma_div_is_ordered;
use vstd::arithmetic::div_mod::lemma_div_multiples_vanish;
use vstd::arithmetic::div_mod::lemma_div_nonincreasing;
use vstd::arithmetic::div_mod::lemma_div_pos_is_pos;
use vstd::arithmetic::div_mod::lemma_fundamental_div_mod;
use vstd::prelude::*;

verus! {

/// Largest live value magnitude the interaction functions accept, in
/// ticks: far beyond any realistic number of turns, but small enough that
/// every intermediate product fits the machine integers.
pub const VALUE_MAX: i64 = 1_000_000_000_000;

/// Largest drag delta and widget width accepted, in pixel ticks.
pub const DRAG_MAX: i64 = 1_000_000_000;

/// Turning sense of a knob.
#[derive(Clone, Copy, PartialEq, Eq, Structural, Debug)]
pub enum KnobDirection {
    Clockwise,
    Counterclockwise,
}

impl KnobDirection {
    /// The sign carried by this direction: `1` or `-1`.
    pub open spec fn spec_sign(&self) -> int {
        match *self {
            KnobDirection::Clockwise => 1,
            KnobDirection::Counterclockwise => -1,
        }
    }

    /// The direction's sign as a scaled multiplier: one unit, positive for
    /// clockwise and negative for counterclockwise.
    pub fn to_float(&self) -> (r: i64)
        ensures
            r == self.spec_sign() * UNIT,
    {
        match *self {
            KnobDirection::Clockwise => UNIT,
            KnobDirection::Counterclockwise => -UNIT,
        }
    }
}

/// Wrap policy of a knob's live value.
#[derive(Clone, Copy, PartialEq, Eq, Structural, Debug)]
pub enum KnobMode {
    /// Canonical range `(-PI_U, PI_U]`.
    Signed,
    /// Canonical range `[0, TAU_U)`.
    Unsigned,
    /// No wraparound: the value accumulates across whole turns.
    SpinAround,
}

/// Rotation applied to a knob's shape and angle origin.
#[derive(Clone, Copy, PartialEq, Eq, Structural, Debug)]
pub enum KnobOrientation {
    Right,
    Bottom,
    Left,
    Top,
    Custom(i64),
}

impl KnobOrientation {
    /// The rotation angle of this orientation, in ticks.
    pub open spec fn spec_rotation(&self) -> int {
        match *self {
            KnobOrientation::Right => 0,
            KnobOrientation::Bottom => HALF_PI_U as int,
            KnobOrientation::Left => PI_U as int,
            KnobOrientation::Top => PI_U + HALF_PI_U,
            KnobOrientation::Custom(angle) => angle as int,
        }
    }

    /// The rotation of this orientation, as an angle in ticks: none, a
    /// quarter, half or three quarters of a turn, or the custom angle.
    pub fn rot2(&self) -> (r: i64)
        ensures
            r == self.spec_rotation(),
    {
        match *self {
            KnobOrientation::Right => 0,
            KnobOrientation::Bottom => HALF_PI_U,
            KnobOrientation::Left => PI_U,
            KnobOrientation::Top => PI_U + HALF_PI_U,
            KnobOrientation::Custom(angle) => angle,
        }
    }
}

/// The wrap step of the clamp pipeline.
pub open spec fn spec_wrap(mode: KnobMode, v: int) -> int {
    match mode {
        KnobMode::Signed => wrap_signed(v),
        KnobMode::Unsigned => wrap_unsigned(v),
        KnobMode::SpinAround => v,
    }
}

/// The full clamp pipeline: wrap by mode, then clamp to `max`, then to
/// `min` — in that fixed order, so an inverted pair pins the result to
/// `min`.
pub open spec fn spec_constrain(mode: KnobMode, min: Option<i64>, max: Option<i64>, v: int) -> int {
    let w = spec_wrap(mode, v);
    let w2 = match max {
        Option::Some(mx) => if w > mx {
            mx as int
        } else {
            w
        },
        Option::None => w,
    };
    match min {
        Option::Some(mn) => if w2 < mn {
            mn as int
        } else {
            w2
        },
        Option::None => w2,
    }
}

/// Run a value through the clamp pipeline.
pub fn constrain_value(mode: KnobMode, min: Option<i64>, max: Option<i64>, v: i64) -> (r: i64)
    ensures
        r == spec_constrain(mode, min, max, v as int),
        (-VALUE_MAX <= v <= VALUE_MAX && (min matches Option::Some(m) ==> -VALUE_MAX <= m
            <= VALUE_MAX) && (max matches Option::Some(m) ==> -VALUE_MAX <= m <= VALUE_MAX))
            ==> -VALUE_MAX <= r <= VALUE_MAX,
{
    let w: i64 = match mode {
        KnobMode::Signed => normalized_angle(v),
        KnobMode::Unsigned => normalized_angle_unsigned_excl(v),
        KnobMode::SpinAround => v,
    };
    let w2: i64 = match max {
        Option::Some(mx) => if w > mx {
            mx
        } else {
            w
        },
        Option::None => w,
    };
    match min {
        Option::Some(mn) => if w2 < mn {
            mn
        } else {
            w2
        },
        Option::None => w2,
    }
}

/// With both stops set and inverted (`min >= max`), the pipeline pins every
/// input to `min`: the `min` clamp is applied last and wins.
pub proof fn lemma_inverted_clamp_pins_to_min(mode: KnobMode, mn: i64, mx: i64, v: int)
    requires
        mn >= mx,
    ensures
        spec_constrain(mode, Option::Some(mn), Option::Some(mx), v) == mn,
{
}

/// The raw (pre-clamp) dragged value: the horizontal delta `dx`, as a
/// fraction of the widget width, scaled by the angular spread and applied
/// against the drag direction.
pub open spec fn spec_drag_raw(
    value: int,
    dx: int,
    width: int,
    spread: int,
    direction: KnobDirection,
) -> int {
    value - direction.spec_sign() * tdiv(dx * spread, width)
}

/// Apply a horizontal drag delta to a value, before clamping.
pub fn drag_value(value: i64, dx: i64, width: i64, spread: i64, direction: KnobDirection) -> (r:
    i64)
    requires
        0 < width <= DRAG_MAX,
        -DRAG_MAX <= dx <= DRAG_MAX,
        0 <= spread <= DRAG_MAX,
        -VALUE_MAX <= value <= VALUE_MAX,
    ensures
        r == spec_drag_raw(value as int, dx as int, width as int, spread as int, direction),
        (UNIT <= width && spread <= 100_000_000) ==> value - 100_000_000_000i64 <= r <= value
            + 100_000_000_000i64,
{
    proof {
        assert(-(DRAG_MAX * DRAG_MAX) <= dx * spread <= DRAG_MAX * DRAG_MAX) by (nonlinear_arith)
            requires
                -DRAG_MAX <= dx <= DRAG_MAX,
                0 <= spread <= DRAG_MAX,
        ;
        if spread <= 100_000_000 {
            assert(-100_000_000_000_000_000 <= dx * spread <= 100_000_000_000_000_000)
                by (nonlinear_arith)
                requires
                    -DRAG_MAX <= dx <= DRAG_MAX,
                    0 <= spread <= 100_000_000,
            ;
        }
    }
    let prod: i64 = dx * spread;
    proof {
        if UNIT <= width && spread <= 100_000_000 {
            if prod >= 0 {
                vstd::arithmetic::div_mod::lemma_div_is_ordered_by_denominator(
                    prod as int,
                    UNIT as int,
                    width as int,
                );
                lemma_div_is_ordered(prod as int, 100_000_000_000_000_000int, UNIT as int);
            } else {
                vstd::arithmetic::div_mod::lemma_div_is_ordered_by_denominator(
                    -prod as int,
                    UNIT as int,
                    width as int,
                );
                lemma_div_is_ordered(-prod as int, 100_000_000_000_000_000int, UNIT as int);
            }
        }
    }
    let q: i64 = if prod >= 0 {
        proof {
            lemma_div_pos_is_pos(prod as int, width as int);
            lemma_div_nonincreasing(prod as int, width as int);
        }
        prod / width
    } else {
        proof {
            lemma_div_pos_is_pos(-prod as int, width as int);
            lemma_div_nonincreasing(-prod as int, width as int);
        }
        -((-prod) / width)
    };
    match direction {
        KnobDirection::Clockwise => value - q,
        KnobDirection::Counterclockwise => value + q,
    }
}

/// Dragging across the full widget width changes the raw value by exactly
/// the spread, negated for a counterclockwise knob.
pub proof fn lemma_full_width_drag(value: int, width: int, spread: int)
    requires
        0 < width,
        0 <= spread,
    ensures
        spec_drag_raw(value, width, width, spread, KnobDirection::Clockwise) == value - spread,
        spec_drag_raw(value, width, width, spread, KnobDirection::Counterclockwise) == value
            + spread,
{
    assert(width * spread == spread * width) by (nonlinear_arith);
    lemma_div_multiples_vanish(spread, width);
}

/// Round to the nearest integer ratio, halves away from zero.
pub open spec fn spec_round_div(v: int, step: int) -> int {
    if v >= 0 {
        (v + step / 2) / step
    } else {
        -((-v + step / 2) / step)
    }
}

/// The multiple of `step` nearest to `v` (halves rounding away from zero).
pub open spec fn spec_snap(v: int, step: int) -> int {
    spec_round_div(v, step) * step
}

/// Snap a value to the nearest multiple of a step.
pub fn snap_value(value: i64, step: i64) -> (r: i64)
    requires
        0 < step <= VALUE_MAX,
        -VALUE_MAX <= value <= VALUE_MAX,
    ensures
        r == spec_snap(value as int, step as int),
        -2 * VALUE_MAX <= r <= 2 * VALUE_MAX,
{
    let half: i64 = step / 2;
    if value >= 0 {
        let q: i64 = (value + half) / step;
        proof {
            lemma_div_pos_is_pos((value + half) as int, step as int);
            lemma_fundamental_div_mod((value + half) as int, step as int);
            assert(step * ((value + half) as int / (step as int)) == q * step) by (nonlinear_arith)
                requires
                    q == (value + half) as int / (step as int),
            ;
        }
        q * step
    } else {
        let q: i64 = ((-value) + half) / step;
        proof {
            lemma_div_pos_is_pos((-value + half) as int, step as int);
            lemma_fundamental_div_mod((-value + half) as int, step as int);
            assert(step * ((-value + half) as int / (step as int)) == q * step)
                by (nonlinear_arith)
                requires
                    q == (-value + half) as int / (step as int),
            ;
            assert(-(q as int * step as int) == (-(q as int)) * (step as int))
                by (nonlinear_arith);
        }
        -(q * step)
    }
}

/// The snap step chosen on drag release: the modifier key selects the
/// modified step when one is configured, otherwise the plain step applies
/// when set.
pub open spec fn spec_snap_step(
    snap_angle: Option<i64>,
    modified_snap_angle: Option<i64>,
    modifier: bool,
) -> Option<i64> {
    if modifier && modified_snap_angle is Some {
        modified_snap_angle
    } else {
        snap_angle
    }
}

/// Interaction configuration of one knob widget, fixed for its lifetime.
#[derive(Clone, Copy, PartialEq, Eq, Structural, Debug)]
pub struct KnobConfig {
    pub mode: KnobMode,
    pub direction: KnobDirection,
    pub snap_angle: Option<i64>,
    pub modified_snap_angle: Option<i64>,
    pub min: Option<i64>,
    pub max: Option<i64>,
}

impl KnobConfig {
    /// Configuration validity: snap steps must be strictly positive, and
    /// stops within the accepted value range.
    pub open spec fn wf(&self) -> bool {
        &&& (self.snap_angle matches Option::Some(s) ==> 0 < s <= VALUE_MAX)
        &&& (self.modified_snap_angle matches Option::Some(s) ==> 0 < s <= VALUE_MAX)
        &&& (self.min matches Option::Some(m) ==> -VALUE_MAX <= m <= VALUE_MAX)
        &&& (self.max matches Option::Some(m) ==> -VALUE_MAX <= m <= VALUE_MAX)
    }

    /// Runtime check of `wf`: rejecting a non-positive snap angle is the
    /// caller's fail-fast duty before driving a knob.
    pub fn is_valid(&self) -> (b: bool)
        ensures
            b == self.wf(),
    {
        let snap_ok = match self.snap_angle {
            Option::Some(s) => 0 < s && s <= VALUE_MAX,
            Option::None => true,
        };
        let mod_ok = match self.modified_snap_angle {
            Option::Some(s) => 0 < s && s <= VALUE_MAX,
            Option::None => true,
        };
        let min_ok = match self.min {
            Option::Some(m) => -VALUE_MAX <= m && m <= VALUE_MAX,
            Option::None => true,
        };
        let max_ok = match self.max {
            Option::Some(m) => -VALUE_MAX <= m && m <= VALUE_MAX,
            Option::None => true,
        };
        snap_ok && mod_ok && min_ok && max_ok
    }
}

/// Interaction state of one knob: idle, or being dragged.
#[derive(Clone, Copy, PartialEq, Eq, Structural, Debug)]
pub enum KnobState {
    Idle,
    Dragging,
}

/// The per-widget interaction state machine. The live value stays with the
/// caller; each event reads it once and rewrites it at most once.
pub struct KnobInteraction {
    pub config: KnobConfig,
    pub state: KnobState,
}

impl KnobInteraction {
    /// A fresh, idle interaction over a configuration.
    pub fn new(config: KnobConfig) -> (k: KnobInteraction)
        ensures
            k.config == config,
            k.state is Idle,
    {
        KnobInteraction { config, state: KnobState::Idle }
    }

    /// A pointer press starts a drag.
    pub fn begin_drag(&mut self)
        ensures
            final(self).config == old(self).config,
            final(self).state is Dragging,
    {
        self.state = KnobState::Dragging;
    }

    /// A pointer move while dragging: the delta is applied, the clamp
    /// pipeline runs, and the value is rewritten. No snapping happens
    /// mid-drag. Reports whether the value changed.
    pub fn drag_update(&self, value: &mut i64, dx: i64, width: i64, spread: i64) -> (changed: bool)
        requires
            self.config.wf(),
            self.state is Dragging,
            0 < width <= DRAG_MAX,
            -DRAG_MAX <= dx <= DRAG_MAX,
            0 <= spread <= DRAG_MAX,
            -VALUE_MAX <= *old(value) <= VALUE_MAX,
        ensures
            *final(value) == spec_constrain(
                self.config.mode,
                self.config.min,
                self.config.max,
                spec_drag_raw(
                    *old(value) as int,
                    dx as int,
                    width as int,
                    spread as int,
                    self.config.direction,
                ),
            ),
            changed == (*final(value) != *old(value)),
    {
        let raw = drag_value(*value, dx, width, spread, self.config.direction);
        let next = constrain_value(self.config.mode, self.config.min, self.config.max, raw);
        let changed = next != *value;
        *value = next;
        changed
    }

    /// A pointer release ends the drag; if a snap step applies (the
    /// modifier key selecting the modified step), the value is snapped to
    /// its nearest multiple and clamped once more. Reports whether the
    /// value changed.
    pub fn end_drag(&mut self, value: &mut i64, modifier: bool) -> (changed: bool)
        requires
            old(self).config.wf(),
            -VALUE_MAX <= *old(value) <= VALUE_MAX,
        ensures
            final(self).config == old(self).config,
            final(self).state is Idle,
            *final(value) == match spec_snap_step(
                old(self).config.snap_angle,
                old(self).config.modified_snap_angle,
                modifier,
            ) {
                Option::Some(step) => spec_constrain(
                    old(self).config.mode,
                    old(self).config.min,
                    old(self).config.max,
                    spec_snap(*old(value) as int, step as int),
                ),
                Option::None => *old(value) as int,
            },
            changed == (*final(value) != *old(value)),
    {
        self.state = KnobState::Idle;
        let step_opt: Option<i64> = if modifier && self.config.modified_snap_angle.is_some() {
            self.config.modified_snap_angle
        } else {
            self.config.snap_angle
        };
        match step_opt {
            Option::Some(step) => {
                let snapped = snap_value(*value, step);
                let next = constrain_value(self.config.mode, self.config.min, self.config.max, snapped);
                let changed = next != *value;
                *value = next;
                changed
            },
            Option::None => false,
        }
    }
}

} // verus!
