//! The interaction core of a linear compass heading display: one frame's
//! worth of drag, release, snap and clamp work over the caller-owned
//! heading value. Painting the dial chrome (ticks, cardinal labels, stop
//! markers) is the host's concern and consumes the same value and stops.

use crate::interact::constrain_value;
use crate::interact::drag_value;
use crate::interact::snap_value;
use crate::interact::spec_constrain;
use crate::interact::spec_drag_raw;
use crate::interact::spec_snap;
use crate::interact::spec_snap_step;
use crate::interact::KnobDirection;
use crate::interact::KnobMode;
use crate::interact::DRAG_MAX;
use crate::interact::VALUE_MAX;
use crate::UNIT;
use vstd::prelude::*;

verus! {

/// Largest angular spread accepted by the compass, in ticks: about sixteen
/// turns across the widget width.
pub const SPREAD_MAX: i64 = 100_000_000;

/// Largest heading magnitude accepted by the compass, in ticks.
pub const COMPASS_VALUE_MAX: i64 = 100_000_000_000;

/// The four cardinal labels of a compass dial, clockwise from north.
pub struct CompassLabels<'a>(pub [&'a str; 4]);

/// The heading after one frame of compass interaction: a drag delta (if
/// any) is applied and clamped, then — on release — the chosen snap step
/// (the shift key selecting the alternate step) rounds the heading to its
/// nearest multiple and the clamp pipeline runs once more.
pub open spec fn spec_compass_update(
    mode: KnobMode,
    v: int,
    drag_dx: Option<i64>,
    width: int,
    spread: int,
    released: bool,
    shift: bool,
    snap_angle: Option<i64>,
    shift_snap_angle: Option<i64>,
    min: Option<i64>,
    max: Option<i64>,
) -> int {
    let v1 = match drag_dx {
        Option::Some(dx) => spec_constrain(
            mode,
            min,
            max,
            spec_drag_raw(v, dx as int, width, spread, KnobDirection::Clockwise),
        ),
        Option::None => v,
    };
    if released {
        match spec_snap_step(snap_angle, shift_snap_angle, shift) {
            Option::Some(step) => spec_constrain(mode, min, max, spec_snap(v1, step as int)),
            Option::None => v1,
        }
    } else {
        v1
    }
}

/// Run one frame of compass interaction over the caller's heading value.
/// Reports whether the value changed.
pub fn compass_knob_update(
    mode: KnobMode,
    value: &mut i64,
    drag_dx: Option<i64>,
    width: i64,
    spread: i64,
    released: bool,
    shift: bool,
    snap_angle: Option<i64>,
    shift_snap_angle: Option<i64>,
    min: Option<i64>,
    max: Option<i64>,
) -> (changed: bool)
    requires
        UNIT <= width <= DRAG_MAX,
        0 <= spread <= SPREAD_MAX,
        drag_dx matches Option::Some(dx) ==> -DRAG_MAX <= dx <= DRAG_MAX,
        snap_angle matches Option::Some(s) ==> 0 < s <= VALUE_MAX,
        shift_snap_angle matches Option::Some(s) ==> 0 < s <= VALUE_MAX,
        min matches Option::Some(m) ==> -VALUE_MAX <= m <= VALUE_MAX,
        max matches Option::Some(m) ==> -VALUE_MAX <= m <= VALUE_MAX,
        -COMPASS_VALUE_MAX <= *old(value) <= COMPASS_VALUE_MAX,
    ensures
        *final(value) == spec_compass_update(
            mode,
            *old(value) as int,
            drag_dx,
            width as int,
            spread as int,
            released,
            shift,
            snap_angle,
            shift_snap_angle,
            min,
            max,
        ),
        changed == (*final(value) != *old(value)),
{
    let v0: i64 = *value;
    let v1: i64 = match drag_dx {
        Option::Some(dx) => {
            let raw = drag_value(v0, dx, width, spread, KnobDirection::Clockwise);
            constrain_value(mode, min, max, raw)
        },
        Option::None => v0,
    };
    let v2: i64 = if released {
        let step_opt: Option<i64> = if shift && shift_snap_angle.is_some() {
            shift_snap_angle
        } else {
            snap_angle
        };
        match step_opt {
            Option::Some(step) => {
                let snapped = snap_value(v1, step);
                constrain_value(mode, min, max, snapped)
            },
            Option::None => v1,
        }
    } else {
        v1
    };
    *value = v2;
    v2 != v0
}

} // verus!
