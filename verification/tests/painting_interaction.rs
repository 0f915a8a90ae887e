//! Scenario tests for the geometry painter and the knob interaction state
//! machine.

use knob_core::compass_knob_update;
use knob_core::CompassLabels;
use knob_core::constrain_value;
use knob_core::drag_value;
use knob_core::snap_value;
use knob_core::FillPrimitive;
use knob_core::KnobConfig;
use knob_core::KnobDirection;
use knob_core::KnobInteraction;
use knob_core::KnobMode;
use knob_core::KnobOrientation;
use knob_core::KnobShape;
use knob_core::KnobState;
use knob_core::Pt;
use knob_core::HALF_PI_U;
use knob_core::PI_U;
use knob_core::RESOLUTION;
use knob_core::TAU_U;
use knob_core::UNIT;

#[test]
fn direction_multipliers() {
    assert_eq!(KnobDirection::Clockwise.to_float(), UNIT);
    assert_eq!(KnobDirection::Counterclockwise.to_float(), -UNIT);
}

#[test]
fn orientation_rotations() {
    assert_eq!(KnobOrientation::Right.rot2(), 0);
    assert_eq!(KnobOrientation::Bottom.rot2(), HALF_PI_U);
    assert_eq!(KnobOrientation::Left.rot2(), PI_U);
    assert_eq!(KnobOrientation::Top.rot2(), PI_U + HALF_PI_U);
    assert_eq!(KnobOrientation::Custom(123_456).rot2(), 123_456);
}

#[test]
fn full_width_drag_moves_by_the_spread() {
    let w = 400 * UNIT;
    assert_eq!(drag_value(0, w, w, PI_U, KnobDirection::Clockwise), -PI_U);
    assert_eq!(drag_value(0, w, w, PI_U, KnobDirection::Counterclockwise), PI_U);
    assert_eq!(drag_value(500, w, w, PI_U, KnobDirection::Clockwise), 500 - PI_U);
}

#[test]
fn snapping_rounds_to_the_nearest_multiple() {
    // 0.37 with step 0.1 snaps to 0.4.
    assert_eq!(snap_value(370_000, 100_000), 400_000);
    assert_eq!(snap_value(-370_000, 100_000), -400_000);
    // Halves round away from zero.
    assert_eq!(snap_value(350_000, 100_000), 400_000);
    assert_eq!(snap_value(340_000, 100_000), 300_000);
    assert_eq!(snap_value(0, 100_000), 0);
}

#[test]
fn inverted_stops_pin_to_min() {
    // min 1.0, max 0.5: the min clamp runs last and wins, whatever the
    // input or mode.
    for v in [-5_000_000i64, 0, 300_000, 700_000, 2_000_000, 40_000_000] {
        for mode in [KnobMode::Signed, KnobMode::Unsigned, KnobMode::SpinAround] {
            let r = constrain_value(mode, Some(1_000_000), Some(500_000), v);
            assert_eq!(r, 1_000_000);
        }
    }
}

#[test]
fn constrain_wraps_by_mode() {
    assert_eq!(constrain_value(KnobMode::Unsigned, None, None, -100), TAU_U - 100);
    assert_eq!(constrain_value(KnobMode::Signed, None, None, PI_U + 1_000), -PI_U + 1_000);
    assert_eq!(constrain_value(KnobMode::SpinAround, None, None, 5 * TAU_U + 7), 5 * TAU_U + 7);
}

#[test]
fn degenerate_arc_is_a_single_segment() {
    let shape = KnobShape::Circle;
    let center = Pt { x: 0, y: 0 };
    let out = shape.paint_arc(center, 0, 100 * UNIT, 500_000, 500_000, 0);
    assert_eq!(out.fills.len(), 0);
    assert_eq!(out.segments.len(), 1);
    assert_eq!(out.outline.len(), 0);
    // Zero inner radius starts the segment at the center.
    assert_eq!(out.segments[0].a, center);
    assert!(out.segments[0].b != center);
}

#[test]
fn arc_inner_radius_is_floored() {
    let shape = KnobShape::Square;
    let center = Pt { x: 100 * UNIT, y: 200 * UNIT };
    let a = shape.paint_arc(center, 0, 50 * UNIT, 0, 2_000_000, 300_000);
    let b = shape.paint_arc(center, 100_000, 50 * UNIT, 0, 2_000_000, 300_000);
    let c = shape.paint_arc(center, 50_000, 50 * UNIT, 0, 2_000_000, 300_000);
    assert_eq!(a.fills, b.fills);
    assert_eq!(a.segments, b.segments);
    assert_eq!(a.outline, b.outline);
    assert_eq!(a.fills, c.fills);
    assert_eq!(a.outline, c.outline);
    assert_eq!(a.fills.len(), RESOLUTION);
    assert_eq!(a.segments.len(), 0);
    assert_eq!(a.outline.len(), 2 * (RESOLUTION + 1));
}

#[test]
fn shape_fill_is_a_triangle_fan_about_the_center() {
    let shape = KnobShape::Circle;
    let center = Pt { x: 10 * UNIT, y: -20 * UNIT };
    let out = shape.paint_shape(center, 100 * UNIT, 0);
    assert_eq!(out.fills.len(), RESOLUTION);
    assert_eq!(out.outline.len(), RESOLUTION);
    assert_eq!(out.segments.len(), 0);
    for (i, f) in out.fills.iter().enumerate() {
        match f {
            FillPrimitive::Triangle(a, b, c) => {
                assert_eq!(*a, center);
                assert_eq!(*b, out.outline[i]);
                assert_eq!(*c, out.outline[(i + 1) % RESOLUTION]);
            },
            FillPrimitive::Quad(_, _, _, _) => panic!("unexpected quad in a shape fill"),
        }
    }
    // All circle outline points sit about one radius from the center.
    for p in out.outline.iter() {
        let dx = (p.x - center.x) as f64;
        let dy = (p.y - center.y) as f64;
        let dist = (dx * dx + dy * dy).sqrt();
        assert!((dist - 100.0 * UNIT as f64).abs() < 0.01 * 100.0 * UNIT as f64);
    }
}

fn test_config() -> KnobConfig {
    KnobConfig {
        mode: KnobMode::SpinAround,
        direction: KnobDirection::Clockwise,
        snap_angle: Some(100_000),
        modified_snap_angle: Some(250_000),
        min: None,
        max: None,
    }
}

#[test]
fn interaction_state_machine_drag_and_release() {
    let config = test_config();
    assert!(config.is_valid());
    let mut knob = KnobInteraction::new(config);
    assert!(matches!(knob.state, KnobState::Idle));

    knob.begin_drag();
    assert!(matches!(knob.state, KnobState::Dragging));

    let mut value: i64 = 0;
    let w = 400 * UNIT;
    // Drag one full width: the value moves by the whole spread.
    let changed = knob.drag_update(&mut value, w, w, PI_U);
    assert!(changed);
    assert_eq!(value, -PI_U);

    // Release without the modifier: snap to the nearest 0.1.
    value = 370_000;
    let changed = knob.end_drag(&mut value, false);
    assert!(changed);
    assert_eq!(value, 400_000);
    assert!(matches!(knob.state, KnobState::Idle));

    // Release with the modifier: the alternate step applies.
    knob.begin_drag();
    value = 370_000;
    let changed = knob.end_drag(&mut value, true);
    assert!(changed);
    assert_eq!(value, 250_000);

    // No snap configured: releasing leaves the value alone.
    let mut plain = KnobInteraction::new(
        KnobConfig { snap_angle: None, modified_snap_angle: None, ..test_config() },
    );
    plain.begin_drag();
    value = 370_000;
    let changed = plain.end_drag(&mut value, false);
    assert!(!changed);
    assert_eq!(value, 370_000);
}

#[test]
fn invalid_snap_angles_are_rejected() {
    let bad = KnobConfig { snap_angle: Some(0), ..test_config() };
    assert!(!bad.is_valid());
    let bad2 = KnobConfig { modified_snap_angle: Some(-100), ..test_config() };
    assert!(!bad2.is_valid());
}

#[test]
fn compass_labels_hold_four_cardinal_points() {
    let labels = CompassLabels(["N", "E", "S", "W"]);
    assert_eq!(labels.0.len(), 4);
    assert_eq!(labels.0[0], "N");
    assert_eq!(labels.0[3], "W");
}

#[test]
fn compass_drag_moves_against_the_pointer() {
    let mut value: i64 = 0;
    let w = 400 * UNIT;
    let changed = compass_knob_update(
        KnobMode::SpinAround,
        &mut value,
        Some(w),
        w,
        PI_U,
        false,
        false,
        None,
        None,
        None,
        None,
    );
    assert!(changed);
    assert_eq!(value, -PI_U);
}

#[test]
fn compass_release_snaps_and_respects_shift() {
    let w = 400 * UNIT;
    let mut value: i64 = 370_000;
    let changed = compass_knob_update(
        KnobMode::Unsigned,
        &mut value,
        None,
        w,
        PI_U,
        true,
        false,
        Some(100_000),
        Some(250_000),
        None,
        None,
    );
    assert!(changed);
    assert_eq!(value, 400_000);

    let mut value: i64 = 370_000;
    compass_knob_update(
        KnobMode::Unsigned,
        &mut value,
        None,
        w,
        PI_U,
        true,
        true,
        Some(100_000),
        Some(250_000),
        None,
        None,
    );
    assert_eq!(value, 250_000);

    // Shift held with no alternate step configured falls back to the
    // plain step.
    let mut value: i64 = 370_000;
    compass_knob_update(
        KnobMode::Unsigned,
        &mut value,
        None,
        w,
        PI_U,
        true,
        true,
        Some(100_000),
        None,
        None,
        None,
    );
    assert_eq!(value, 400_000);
}

#[test]
fn compass_clamps_to_stops() {
    let w = 400 * UNIT;
    // Inverted stops pin the heading to min even through a compass frame.
    let mut value: i64 = 0;
    compass_knob_update(
        KnobMode::Unsigned,
        &mut value,
        Some(0),
        w,
        PI_U,
        false,
        false,
        None,
        None,
        Some(1_000_000),
        Some(500_000),
    );
    assert_eq!(value, 1_000_000);

    // Ordinary stops clamp an overshooting drag.
    let mut value: i64 = 0;
    compass_knob_update(
        KnobMode::SpinAround,
        &mut value,
        Some(-w),
        w,
        PI_U,
        false,
        false,
        None,
        None,
        Some(-200_000),
        Some(2_000_000),
    );
    assert_eq!(value, 2_000_000);
}
