//! Scenario tests for the angle normalizers, the shape evaluator, and the
//! fixed-point helpers.

use knob_core::isqrt;
use knob_core::normalized_angle;
use knob_core::normalized_angle_unsigned_excl;
use knob_core::normalized_angle_unsigned_incl;
use knob_core::pow_unit;
use knob_core::KnobShape;
use knob_core::PI_U;
use knob_core::TAU_U;
use knob_core::UNIT;

const ANGLES: [i64; 10] = [
    0,
    300_000,
    785_398,
    1_570_796,
    2_500_000,
    3_141_592,
    5_000_000,
    -1_234_567,
    40_000_000,
    -40_000_000,
];

#[test]
fn unsigned_exclusive_wraps_large_positive_multiples() {
    // One hundred half turns plus 0.3 radians comes back to exactly 0.3.
    let x = 100 * PI_U + 300_000;
    assert_eq!(normalized_angle_unsigned_excl(x), 300_000);
}

#[test]
fn unsigned_exclusive_wraps_negatives() {
    assert_eq!(normalized_angle_unsigned_excl(-5), TAU_U - 5);
    assert_eq!(normalized_angle_unsigned_excl(-TAU_U), 0);
    assert_eq!(normalized_angle_unsigned_excl(-100 * TAU_U - 1), TAU_U - 1);
}

#[test]
fn unsigned_exclusive_stays_in_range() {
    for k in -50i64..50 {
        for off in [0i64, 1, 123_456, TAU_U - 1] {
            let r = normalized_angle_unsigned_excl(k * TAU_U + off);
            assert!(0 <= r && r < TAU_U);
            assert_eq!(r, off);
        }
    }
}

#[test]
fn unsigned_inclusive_keeps_full_turn() {
    assert_eq!(normalized_angle_unsigned_incl(TAU_U), TAU_U);
    assert_eq!(normalized_angle_unsigned_incl(0), 0);
    assert_eq!(normalized_angle_unsigned_incl(TAU_U + 5), 5);
    assert_eq!(normalized_angle_unsigned_incl(-5), TAU_U - 5);
}

#[test]
fn signed_wraps_across_the_boundary() {
    // Just past a half turn wraps to just past minus a half turn.
    assert_eq!(normalized_angle(PI_U + 1_000), -PI_U + 1_000);
    assert_eq!(normalized_angle(PI_U), PI_U);
    assert_eq!(normalized_angle(-PI_U), PI_U);
    assert_eq!(normalized_angle(0), 0);
    for k in -5i64..5 {
        let r = normalized_angle(k * TAU_U + 123);
        assert_eq!(r, 123);
        assert!(-PI_U < r && r <= PI_U);
    }
}

#[test]
fn circle_radius_is_one_everywhere() {
    for theta in ANGLES {
        assert_eq!(KnobShape::Circle.eval(theta), UNIT);
    }
}

#[test]
fn square_radius_is_at_least_one_and_bounded() {
    for theta in ANGLES {
        let r = KnobShape::Square.eval(theta);
        assert!(r >= UNIT);
        assert!(r <= 2 * UNIT);
    }
    // On an axis the square touches the circle.
    let r0 = KnobShape::Square.eval(0);
    assert!((r0 - UNIT).abs() <= 5_000);
    // At the diagonal it reaches about sqrt(2).
    let r45 = KnobShape::Square.eval(785_398);
    assert!((r45 - 1_414_214).abs() <= 20_000);
}

#[test]
fn squircle_exponent_two_degenerates_to_circle() {
    for theta in ANGLES {
        let r = KnobShape::Squircle(2 * UNIT).eval(theta);
        assert!((r - UNIT).abs() <= 20_000, "theta {theta}: {r}");
    }
}

#[test]
fn polygon_square_matches_diagonal_growth() {
    // A four-sided polygon at the axis touches the circle and grows toward
    // the corners.
    let r0 = KnobShape::Polygon(4).eval(0);
    assert!((r0 - 1_414_214).abs() <= 20_000);
    let r45 = KnobShape::Polygon(4).eval(785_398);
    assert!(r45 >= UNIT - 5_000);
}

#[test]
fn super_polygon_zero_exponent_collapses() {
    for theta in ANGLES {
        assert_eq!(KnobShape::SuperPolygon(4, 0).eval(theta), 0);
    }
}

#[test]
fn super_polygon_stays_bounded() {
    for theta in ANGLES {
        let r = KnobShape::SuperPolygon(5, 1_500_000).eval(theta);
        assert!(0 <= r && r <= 4 * UNIT);
    }
}

#[test]
fn descriptor_validity_is_checked() {
    assert!(KnobShape::Circle.is_well_formed());
    assert!(KnobShape::Square.is_well_formed());
    assert!(KnobShape::Squircle(1).is_well_formed());
    assert!(!KnobShape::Squircle(0).is_well_formed());
    assert!(!KnobShape::Squircle(-5).is_well_formed());
    assert!(KnobShape::Polygon(3).is_well_formed());
    assert!(!KnobShape::Polygon(2).is_well_formed());
    assert!(KnobShape::SuperPolygon(3, 2_000_000).is_well_formed());
    assert!(!KnobShape::SuperPolygon(3, 2_000_001).is_well_formed());
    assert!(!KnobShape::SuperPolygon(2, 1_000_000).is_well_formed());
}

#[test]
fn eval_is_periodic_over_a_full_turn() {
    let shapes = [
        KnobShape::Circle,
        KnobShape::Square,
        KnobShape::Squircle(3 * UNIT),
        KnobShape::Polygon(5),
        KnobShape::SuperPolygon(6, 1_200_000),
    ];
    for shape in shapes {
        for theta in ANGLES {
            assert_eq!(shape.eval(theta + TAU_U), shape.eval(theta));
            assert_eq!(shape.eval(theta - 3 * TAU_U), shape.eval(theta));
        }
    }
}

#[test]
fn integer_square_root_is_exact() {
    assert_eq!(isqrt(0), 0);
    assert_eq!(isqrt(1), 1);
    assert_eq!(isqrt(3), 1);
    assert_eq!(isqrt(4), 2);
    assert_eq!(isqrt(1_000_000_000_000), 1_000_000);
    assert_eq!(isqrt(999_999_999_999), 999_999);
}

#[test]
fn fixed_point_power_identities() {
    // One raised to anything is one.
    assert_eq!(pow_unit(UNIT, 7 * UNIT), UNIT);
    // Exponent one is the identity.
    assert_eq!(pow_unit(250_000, UNIT), 250_000);
    // Exponent zero gives one.
    assert_eq!(pow_unit(250_000, 0), UNIT);
    // A half exponent is the square root: 0.49^0.5 == 0.7 exactly.
    assert_eq!(pow_unit(490_000, 500_000), 700_000);
    // Squaring: 0.5^2 == 0.25.
    assert_eq!(pow_unit(500_000, 2 * UNIT), 250_000);
}
