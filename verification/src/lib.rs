//! Fixed-point polar geometry and interaction core for radial knob widgets.
//!
//! All quantities are scaled integers: one unit (an angle of one radian, a
//! radius multiplier of one, one pixel) is `UNIT` ticks. Angles are measured
//! in radians of the model, where a full turn is exactly `TAU_U` ticks.

mod angle;
mod compass;
mod fxp;
mod interact;
mod paint;
mod shape;
mod trig;

pub use angle::normalized_angle;
pub use angle::normalized_angle_unsigned_excl;
pub use angle::normalized_angle_unsigned_incl;
pub use angle::wrap_signed;
pub use angle::wrap_unsigned;
pub use compass::compass_knob_update;
pub use compass::spec_compass_update;
pub use compass::CompassLabels;
pub use compass::COMPASS_VALUE_MAX;
pub use compass::SPREAD_MAX;
pub use fxp::iabs;
pub use fxp::isqrt;
pub use fxp::is_sqrt;
pub use fxp::mdu;
pub use fxp::pow_unit;
pub use fxp::spec_isqrt;
pub use fxp::spec_pow_unit;
pub use fxp::tdiv;
pub use interact::constrain_value;
pub use interact::drag_value;
pub use interact::lemma_full_width_drag;
pub use interact::lemma_inverted_clamp_pins_to_min;
pub use interact::snap_value;
pub use interact::spec_constrain;
pub use interact::spec_drag_raw;
pub use interact::spec_snap;
pub use interact::spec_snap_step;
pub use interact::spec_wrap;
pub use interact::KnobConfig;
pub use interact::KnobDirection;
pub use interact::KnobInteraction;
pub use interact::KnobMode;
pub use interact::KnobOrientation;
pub use interact::KnobState;
pub use interact::DRAG_MAX;
pub use interact::VALUE_MAX;
pub use paint::lemma_paint_arc_inner_floor;
pub use paint::paint_arc;
pub use paint::paint_shape;
pub use paint::spec_paint_arc;
pub use paint::spec_paint_shape;
pub use paint::spec_sample_pt;
pub use paint::FillPrimitive;
pub use paint::PaintOutput;
pub use paint::Pt;
pub use paint::Segment;
pub use paint::ARC_EPSILON;
pub use paint::ARC_INNER_FLOOR;
pub use paint::COORD_MAX;
pub use paint::PAINT_ANGLE_MAX;
pub use paint::RESOLUTION;
pub use shape::lemma_eval_periodic;
pub use shape::spec_eval;
pub use shape::KnobShape;
pub use shape::PolarShape;
pub use shape::RADIUS_MAX;
pub use shape::SIDES_MAX;
pub use shape::SUPER_EXPONENT_MAX;
pub use trig::cos_fp;
pub use trig::lemma_trig_periodic;
pub use trig::sin_fp;
pub use trig::spec_cos;
pub use trig::spec_sin;

use vstd::prelude::*;

verus! {

/// Number of ticks in one unit (1.0).
pub const UNIT: i64 = 1_000_000;

/// Half a turn, in ticks: the model's value of pi.
pub const PI_U: i64 = 3_141_592;

/// A quarter turn, in ticks: the model's value of pi / 2.
pub const HALF_PI_U: i64 = 1_570_796;

/// A full turn, in ticks: the model's value of 2 * pi, exactly `2 * PI_U`.
pub const TAU_U: i64 = 6_283_184;

} // verus!
