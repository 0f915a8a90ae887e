//! The geometry painter: tessellation of a polar shape into drawing
//! primitives.
//!
//! Both entry points return plain primitive lists — filled triangles or
//! quadrilaterals, line segments, and one implicitly closed outline — whose
//! exact contents are pinned by spec functions. Coordinates are pixels
//! scaled by `UNIT`.

use crate::fxp::iabs;
use crate::fxp::mul_div_unit;
use crate::fxp::tdiv;
use crate::shape::KnobShape;
use crate::shape::PolarShape;
use crate::shape::RADIUS_MAX;
use crate::trig::cos_fp;
use crate::trig::sin_fp;
use crate::trig::spec_cos;
use crate::trig::spec_sin;
use crate::TAU_U;
use crate::UNIT;
use itertools::Itertools;
use vstd::prelude::*;

verus! {

/// Number of outline samples per full shape (and per arc strip).
pub const RESOLUTION: usize = 32;

/// Largest accepted coordinate or radius magnitude, in pixel ticks.
pub const COORD_MAX: i64 = 1_000_000_000;

/// Largest accepted start, end or rotation angle magnitude for the
/// painters, in ticks.
pub const PAINT_ANGLE_MAX: i64 = 1_000_000_000;

/// Two arc boundary angles closer than this (in ticks) are treated as
/// coinciding: the strip would degenerate into a sliver that rasterizers
/// render with artifacts, so a single line segment is drawn instead.
pub const ARC_EPSILON: i64 = 1_000;

/// Inner arc radii are floored at this value (a tenth of a pixel): a strip
/// reaching exactly the center would produce degenerate quadrilaterals.
pub const ARC_INNER_FLOOR: i64 = 100_000;

/// A point in pixel ticks.
#[derive(Clone, Copy, PartialEq, Eq, Structural, Debug)]
pub struct Pt {
    pub x: i64,
    pub y: i64,
}

/// A filled drawing primitive.
#[derive(Clone, Copy, PartialEq, Eq, Structural, Debug)]
pub enum FillPrimitive {
    Triangle(Pt, Pt, Pt),
    Quad(Pt, Pt, Pt, Pt),
}

/// A stroked line segment.
#[derive(Clone, Copy, PartialEq, Eq, Structural, Debug)]
pub struct Segment {
    pub a: Pt,
    pub b: Pt,
}

/// Everything one paint call emits: fills, stand-alone segments, and the
/// points of one implicitly closed outline (empty when no outline is
/// drawn). Styling (colors, stroke widths) is the host's concern.
pub struct PaintOutput {
    pub fills: Vec<FillPrimitive>,
    pub segments: Vec<Segment>,
    pub outline: Vec<Pt>,
}

/// The sample point of `shape` at `angle`: the center displaced by
/// `radius` times the shape's radius multiplier at `angle - rotation`,
/// in the direction of `angle`.
pub open spec fn spec_sample_pt<S: PolarShape>(
    shape: S,
    center: Pt,
    radius: int,
    rotation: int,
    angle: int,
) -> Pt {
    let len = (radius * shape.radius_spec(angle - rotation)) / (UNIT as int);
    Pt {
        x: (center.x + tdiv(len * spec_cos(angle), UNIT as int)) as i64,
        y: (center.y + tdiv(len * spec_sin(angle), UNIT as int)) as i64,
    }
}

/// Scale a non-negative length by a cosine or sine value.
fn scale_signed(len: i64, c: i64) -> (r: i64)
    requires
        0 <= len <= 4_000_000_000,
        -UNIT <= c <= UNIT,
    ensures
        r == tdiv(len as int * c as int, UNIT as int),
        -len <= r <= len,
{
    if c >= 0 {
        let r = mul_div_unit(len, c);
        proof {
            assert(0 <= len * c <= len * UNIT) by (nonlinear_arith)
                requires
                    0 <= len,
                    0 <= c <= UNIT,
            ;
            vstd::arithmetic::div_mod::lemma_div_is_ordered(len * c, len * UNIT, UNIT as int);
            vstd::arithmetic::div_mod::lemma_div_is_ordered(0, len * c, UNIT as int);
            vstd::arithmetic::div_mod::lemma_div_multiples_vanish(len as int, UNIT as int);
        }
        r
    } else {
        let r = mul_div_unit(len, -c);
        proof {
            assert(len * (c as int) == -(len * ((-c) as int))) by (nonlinear_arith);
            assert(0 <= len * (-c as int) <= len * UNIT) by (nonlinear_arith)
                requires
                    0 <= len,
                    0 < -c <= UNIT,
            ;
            vstd::arithmetic::div_mod::lemma_div_is_ordered(len * (-c as int), len * UNIT, UNIT as int);
            vstd::arithmetic::div_mod::lemma_div_is_ordered(0, len * (-c as int), UNIT as int);
            vstd::arithmetic::div_mod::lemma_div_multiples_vanish(len as int, UNIT as int);
        }
        -r
    }
}

/// Evaluate one sample point.
fn sample_pt<S: PolarShape>(shape: &S, center: Pt, radius: i64, rotation: i64, angle: i64) -> (p:
    Pt)
    requires
        shape.shape_wf(),
        0 <= radius <= COORD_MAX,
        iabs(center.x as int) <= COORD_MAX,
        iabs(center.y as int) <= COORD_MAX,
        iabs(rotation as int) <= 100_000_000_000i64,
        iabs(angle as int) <= 100_000_000_000i64,
    ensures
        p == spec_sample_pt(*shape, center, radius as int, rotation as int, angle as int),
{
    let sr = shape.radius_at(angle - rotation);
    let len = mul_div_unit(radius, sr);
    proof {
        assert(radius * sr <= COORD_MAX * (RADIUS_MAX as int)) by (nonlinear_arith)
            requires
                0 <= radius <= COORD_MAX,
                0 <= sr <= RADIUS_MAX,
        ;
    }
    let c = cos_fp(angle);
    let s = sin_fp(angle);
    Pt { x: center.x + scale_signed(len, c), y: center.y + scale_signed(len, s) }
}

/// The angle of outline sample `i` of a full shape: `i / RESOLUTION` of a
/// turn.
pub open spec fn spec_shape_angle(i: int) -> int {
    (i * TAU_U) / (RESOLUTION as int)
}

/// The outline points of a full shape.
pub open spec fn spec_shape_points<S: PolarShape>(
    shape: S,
    center: Pt,
    radius: int,
    rotation: int,
) -> Seq<Pt> {
    Seq::new(
        RESOLUTION as nat,
        |i: int| spec_sample_pt(shape, center, radius, rotation, spec_shape_angle(i)),
    )
}

/// The angle of arc sample `i`: linear interpolation between the start and
/// end angles over `RESOLUTION` steps.
pub open spec fn spec_arc_angle(start: int, end: int, i: int) -> int {
    start + tdiv((end - start) * i, RESOLUTION as int)
}

/// The sample points of one rim of an arc strip.
pub open spec fn spec_arc_points<S: PolarShape>(
    shape: S,
    center: Pt,
    radius: int,
    rotation: int,
    start: int,
    end: int,
) -> Seq<Pt> {
    Seq::new(
        (RESOLUTION + 1) as nat,
        |i: int| spec_sample_pt(shape, center, radius, rotation, spec_arc_angle(start, end, i)),
    )
}

/// Everything `paint_shape` emits, as `(fills, segments, outline)`.
pub open spec fn spec_paint_shape<S: PolarShape>(
    shape: S,
    center: Pt,
    radius: int,
    rotation: int,
) -> (Seq<FillPrimitive>, Seq<Segment>, Seq<Pt>) {
    let pts = spec_shape_points(shape, center, radius, rotation);
    (
        Seq::new(
            RESOLUTION as nat,
            |i: int| FillPrimitive::Triangle(center, pts[i], pts[(i + 1) % (RESOLUTION as int)]),
        ),
        Seq::<Segment>::empty(),
        pts,
    )
}

/// Everything `paint_arc` emits, as `(fills, segments, outline)`. Boundary
/// angles within `ARC_EPSILON` of each other yield a single segment from
/// the inner to the outer radius; otherwise the strip is tessellated with
/// the inner radius floored at `ARC_INNER_FLOOR`.
pub open spec fn spec_paint_arc<S: PolarShape>(
    shape: S,
    center: Pt,
    inner: int,
    outer: int,
    start: int,
    end: int,
    rotation: int,
) -> (Seq<FillPrimitive>, Seq<Segment>, Seq<Pt>) {
    if iabs(start - end) <= ARC_EPSILON {
        let p1 = spec_sample_pt(shape, center, inner, rotation, start);
        let p2 = spec_sample_pt(shape, center, outer, rotation, start);
        (Seq::<FillPrimitive>::empty(), seq![Segment { a: p1, b: p2 }], Seq::<Pt>::empty())
    } else {
        let ri = if inner < ARC_INNER_FLOOR {
            ARC_INNER_FLOOR as int
        } else {
            inner
        };
        let op = spec_arc_points(shape, center, outer, rotation, start, end);
        let ip = spec_arc_points(shape, center, ri, rotation, start, end);
        (
            Seq::new(
                RESOLUTION as nat,
                |i: int| FillPrimitive::Quad(op[i], ip[i], ip[i + 1], op[i + 1]),
            ),
            Seq::<Segment>::empty(),
            op + ip.reverse(),
        )
    }
}

/// Relies on itertools' `circular_tuple_windows`: over a sequence of `n`
/// points it yields exactly `n` adjacent pairs, the last wrapping around to
/// the first (the iterator cycles the input and takes `n` windows).
#[verifier::external_body]
fn circular_pairs(pts: &Vec<Pt>) -> (r: Vec<(Pt, Pt)>)
    requires
        pts@.len() >= 1,
    ensures
        r@.len() == pts@.len(),
        forall|i: int|
            0 <= i < r@.len() ==> r@[i] == (pts@[i], pts@[(i + 1) % (pts@.len() as int)]),
{
    pts.iter().cloned().circular_tuple_windows().collect()
}

/// Relies on `Iterator::zip` and itertools' `tuple_windows`: zipping the
/// two rims and windowing yields, for each `i`, the pair of adjacent zipped
/// samples `((outer[i], inner[i]), (outer[i+1], inner[i+1]))`, `n - 1`
/// of them from `n` samples.
#[verifier::external_body]
fn adjacent_rim_pairs(outer: &Vec<Pt>, inner: &Vec<Pt>) -> (r: Vec<((Pt, Pt), (Pt, Pt))>)
    requires
        outer@.len() == inner@.len(),
        outer@.len() >= 1,
    ensures
        r@.len() == outer@.len() - 1,
        forall|i: int|
            0 <= i < r@.len() ==> r@[i] == ((outer@[i], inner@[i]), (outer@[i + 1], inner@[i + 1])),
{
    outer
        .iter()
        .cloned()
        .zip(inner.iter().cloned())
        .tuple_windows()
        .collect()
}

/// Paint a filled shape: `RESOLUTION` samples around the full circle,
/// filled as a triangle fan about the center (general filled polygons
/// render with seam artifacts on concave outlines, which the fan avoids),
/// plus one closed outline over the same samples.
#[verifier::loop_isolation(false)]
pub fn paint_shape<S: PolarShape>(shape: &S, center: Pt, radius: i64, rotation: i64) -> (out:
    PaintOutput)
    requires
        shape.shape_wf(),
        0 <= radius <= COORD_MAX,
        iabs(center.x as int) <= COORD_MAX,
        iabs(center.y as int) <= COORD_MAX,
        iabs(rotation as int) <= PAINT_ANGLE_MAX,
    ensures
        (out.fills@, out.segments@, out.outline@) == spec_paint_shape(
            *shape,
            center,
            radius as int,
            rotation as int,
        ),
        out.fills@.len() == RESOLUTION,
        out.segments@.len() == 0,
        out.outline@.len() == RESOLUTION,
{
    let ghost spec_pts = spec_shape_points(*shape, center, radius as int, rotation as int);
    let mut pts: Vec<Pt> = Vec::new();
    let mut i: usize = 0;
    while i < RESOLUTION
        invariant
            shape.shape_wf(),
            0 <= radius <= COORD_MAX,
            iabs(center.x as int) <= COORD_MAX,
            iabs(center.y as int) <= COORD_MAX,
            iabs(rotation as int) <= PAINT_ANGLE_MAX,
            0 <= i <= RESOLUTION,
            pts@.len() == i,
            forall|j: int| 0 <= j < i ==> pts@[j] == spec_pts[j],
        decreases RESOLUTION - i,
    {
        let angle: i64 = ((i as i64) * TAU_U) / (RESOLUTION as i64);
        pts.push(sample_pt(shape, center, radius, rotation, angle));
        i = i + 1;
    }
    proof {
        assert(pts@ =~= spec_pts);
    }

    let pairs = circular_pairs(&pts);
    let mut fills: Vec<FillPrimitive> = Vec::new();
    let mut j: usize = 0;
    while j < pairs.len()
        invariant
            pairs@.len() == RESOLUTION,
            pts@ == spec_pts,
            forall|k: int|
                0 <= k < pairs@.len() ==> pairs@[k] == (
                    spec_pts[k],
                    spec_pts[(k + 1) % (RESOLUTION as int)],
                ),
            0 <= j <= pairs@.len(),
            fills@.len() == j,
            forall|k: int|
                0 <= k < j ==> fills@[k] == FillPrimitive::Triangle(
                    center,
                    spec_pts[k],
                    spec_pts[(k + 1) % (RESOLUTION as int)],
                ),
        decreases pairs@.len() - j,
    {
        let pair = pairs[j];
        fills.push(FillPrimitive::Triangle(center, pair.0, pair.1));
        j = j + 1;
    }
    let out = PaintOutput { fills, segments: Vec::new(), outline: pts };
    proof {
        assert(out.fills@ =~= spec_paint_shape(*shape, center, radius as int, rotation as int).0);
        assert(out.segments@ =~= spec_paint_shape(
            *shape,
            center,
            radius as int,
            rotation as int,
        ).1);
    }
    out
}

/// Sample one rim of an arc strip.
#[verifier::loop_isolation(false)]
fn arc_rim_points<S: PolarShape>(
    shape: &S,
    center: Pt,
    radius: i64,
    rotation: i64,
    start: i64,
    end: i64,
) -> (pts: Vec<Pt>)
    requires
        shape.shape_wf(),
        0 <= radius <= COORD_MAX,
        iabs(center.x as int) <= COORD_MAX,
        iabs(center.y as int) <= COORD_MAX,
        iabs(rotation as int) <= PAINT_ANGLE_MAX,
        iabs(start as int) <= PAINT_ANGLE_MAX,
        iabs(end as int) <= PAINT_ANGLE_MAX,
    ensures
        pts@ == spec_arc_points(*shape, center, radius as int, rotation as int, start as int, end as int),
{
    let ghost spec_pts = spec_arc_points(
        *shape,
        center,
        radius as int,
        rotation as int,
        start as int,
        end as int,
    );
    let mut pts: Vec<Pt> = Vec::new();
    let mut i: usize = 0;
    while i < RESOLUTION + 1
        invariant
            shape.shape_wf(),
            0 <= radius <= COORD_MAX,
            iabs(center.x as int) <= COORD_MAX,
            iabs(center.y as int) <= COORD_MAX,
            iabs(rotation as int) <= PAINT_ANGLE_MAX,
            iabs(start as int) <= PAINT_ANGLE_MAX,
            iabs(end as int) <= PAINT_ANGLE_MAX,
            0 <= i <= RESOLUTION + 1,
            pts@.len() == i,
            forall|j: int| 0 <= j < i ==> pts@[j] == spec_pts[j],
        decreases RESOLUTION + 1 - i,
    {
        let diff: i64 = end - start;
        proof {
            assert(-64_000_000_000 <= (diff as int) * (i as int) <= 64_000_000_000)
                by (nonlinear_arith)
                requires
                    -2_000_000_000 <= diff <= 2_000_000_000,
                    0 <= i <= 32,
            ;
        }
        let prod: i64 = diff * (i as i64);
        let step: i64 = if prod >= 0 {
            prod / (RESOLUTION as i64)
        } else {
            -((-prod) / (RESOLUTION as i64))
        };
        let angle: i64 = start + step;
        proof {
            if prod >= 0 {
                vstd::arithmetic::div_mod::lemma_div_is_ordered(0, prod as int, RESOLUTION as int);
                vstd::arithmetic::div_mod::lemma_div_is_ordered(
                    prod as int,
                    64_000_000_000int,
                    RESOLUTION as int,
                );
            } else {
                vstd::arithmetic::div_mod::lemma_div_is_ordered(0, -prod as int, RESOLUTION as int);
                vstd::arithmetic::div_mod::lemma_div_is_ordered(
                    -prod as int,
                    64_000_000_000int,
                    RESOLUTION as int,
                );
            }
        }
        pts.push(sample_pt(shape, center, radius, rotation, angle));
        i = i + 1;
    }
    proof {
        assert(pts@ =~= spec_pts);
    }
    pts
}

/// Paint an annular arc strip between two radii over an angle range.
///
/// Nearly coinciding boundary angles produce exactly one line segment and
/// no fills; otherwise the strip is `RESOLUTION` quadrilaterals between the
/// two rims (inner radius floored at `ARC_INNER_FLOOR`) and one closed
/// outline running out along the outer rim and back along the inner one.
#[verifier::loop_isolation(false)]
pub fn paint_arc<S: PolarShape>(
    shape: &S,
    center: Pt,
    inner_radius: i64,
    outer_radius: i64,
    start_angle: i64,
    end_angle: i64,
    rotation: i64,
) -> (out: PaintOutput)
    requires
        shape.shape_wf(),
        0 <= inner_radius <= COORD_MAX,
        0 <= outer_radius <= COORD_MAX,
        iabs(center.x as int) <= COORD_MAX,
        iabs(center.y as int) <= COORD_MAX,
        iabs(rotation as int) <= PAINT_ANGLE_MAX,
        iabs(start_angle as int) <= PAINT_ANGLE_MAX,
        iabs(end_angle as int) <= PAINT_ANGLE_MAX,
    ensures
        (out.fills@, out.segments@, out.outline@) == spec_paint_arc(
            *shape,
            center,
            inner_radius as int,
            outer_radius as int,
            start_angle as int,
            end_angle as int,
            rotation as int,
        ),
        iabs(start_angle - end_angle) <= ARC_EPSILON ==> out.segments@.len() == 1
            && out.fills@.len() == 0 && out.outline@.len() == 0,
        iabs(start_angle - end_angle) > ARC_EPSILON ==> out.fills@.len() == RESOLUTION
            && out.segments@.len() == 0 && out.outline@.len() == 2 * (RESOLUTION + 1),
{
    let gap: i64 = if start_angle >= end_angle {
        start_angle - end_angle
    } else {
        end_angle - start_angle
    };
    if gap <= ARC_EPSILON {
        let p1 = sample_pt(shape, center, inner_radius, rotation, start_angle);
        let p2 = sample_pt(shape, center, outer_radius, rotation, start_angle);
        let mut segments: Vec<Segment> = Vec::new();
        segments.push(Segment { a: p1, b: p2 });
        let out = PaintOutput { fills: Vec::new(), segments, outline: Vec::new() };
        proof {
            let spec_out = spec_paint_arc(
                *shape,
                center,
                inner_radius as int,
                outer_radius as int,
                start_angle as int,
                end_angle as int,
                rotation as int,
            );
            assert(out.fills@ =~= spec_out.0);
            assert(out.segments@ =~= spec_out.1);
            assert(out.outline@ =~= spec_out.2);
        }
        out
    } else {
        let ri: i64 = if inner_radius < ARC_INNER_FLOOR {
            ARC_INNER_FLOOR
        } else {
            inner_radius
        };
        let outer_pts = arc_rim_points(shape, center, outer_radius, rotation, start_angle, end_angle);
        let inner_pts = arc_rim_points(shape, center, ri, rotation, start_angle, end_angle);
        let ghost op = outer_pts@;
        let ghost ip = inner_pts@;

        let rim_pairs = adjacent_rim_pairs(&outer_pts, &inner_pts);
        let mut fills: Vec<FillPrimitive> = Vec::new();
        let mut j: usize = 0;
        while j < rim_pairs.len()
            invariant
                rim_pairs@.len() == RESOLUTION,
                forall|k: int|
                    0 <= k < rim_pairs@.len() ==> rim_pairs@[k] == (
                        (op[k], ip[k]),
                        (op[k + 1], ip[k + 1]),
                    ),
                0 <= j <= rim_pairs@.len(),
                fills@.len() == j,
                forall|k: int|
                    0 <= k < j ==> fills@[k] == FillPrimitive::Quad(op[k], ip[k], ip[k + 1], op[k + 1]),
            decreases rim_pairs@.len() - j,
        {
            let pair = rim_pairs[j];
            fills.push(FillPrimitive::Quad(pair.0.0, pair.0.1, pair.1.1, pair.1.0));
            j = j + 1;
        }

        let mut outline: Vec<Pt> = Vec::new();
        let mut a: usize = 0;
        while a < outer_pts.len()
            invariant
                op.len() == RESOLUTION + 1,
                outer_pts@ == op,
                0 <= a <= op.len(),
                outline@.len() == a,
                forall|k: int| 0 <= k < a ==> outline@[k] == op[k],
            decreases op.len() - a,
        {
            outline.push(outer_pts[a]);
            a = a + 1;
        }
        let mut b: usize = inner_pts.len();
        while b > 0
            invariant
                op.len() == RESOLUTION + 1,
                ip.len() == RESOLUTION + 1,
                inner_pts@ == ip,
                0 <= b <= ip.len(),
                outline@.len() == op.len() + (ip.len() - b),
                forall|k: int| 0 <= k < op.len() ==> outline@[k] == op[k],
                forall|k: int|
                    op.len() <= k < outline@.len() ==> outline@[k] == ip[ip.len() - 1 - (
                    k - op.len())],
            decreases b,
        {
            b = b - 1;
            outline.push(inner_pts[b]);
        }

        let out = PaintOutput { fills, segments: Vec::new(), outline };
        proof {
            let spec_out = spec_paint_arc(
                *shape,
                center,
                inner_radius as int,
                outer_radius as int,
                start_angle as int,
                end_angle as int,
                rotation as int,
            );
            assert(out.fills@ =~= spec_out.0);
            assert(out.segments@ =~= spec_out.1);
            assert(out.outline@ =~= spec_out.2);
        }
        out
    }
}

impl KnobShape {
    /// Paint this shape filled, as `paint_shape` does for any polar shape.
    pub fn paint_shape(&self, center: Pt, radius: i64, rotation: i64) -> (out: PaintOutput)
        requires
            self.wf(),
            0 <= radius <= COORD_MAX,
            iabs(center.x as int) <= COORD_MAX,
            iabs(center.y as int) <= COORD_MAX,
            iabs(rotation as int) <= PAINT_ANGLE_MAX,
        ensures
            (out.fills@, out.segments@, out.outline@) == spec_paint_shape(
                *self,
                center,
                radius as int,
                rotation as int,
            ),
            out.fills@.len() == RESOLUTION,
            out.segments@.len() == 0,
            out.outline@.len() == RESOLUTION,
    {
        paint_shape(self, center, radius, rotation)
    }

    /// Paint an annular arc of this shape, as `paint_arc` does for any
    /// polar shape.
    pub fn paint_arc(
        &self,
        center: Pt,
        inner_radius: i64,
        outer_radius: i64,
        start_angle: i64,
        end_angle: i64,
        rotation: i64,
    ) -> (out: PaintOutput)
        requires
            self.wf(),
            0 <= inner_radius <= COORD_MAX,
            0 <= outer_radius <= COORD_MAX,
            iabs(center.x as int) <= COORD_MAX,
            iabs(center.y as int) <= COORD_MAX,
            iabs(rotation as int) <= PAINT_ANGLE_MAX,
            iabs(start_angle as int) <= PAINT_ANGLE_MAX,
            iabs(end_angle as int) <= PAINT_ANGLE_MAX,
        ensures
            (out.fills@, out.segments@, out.outline@) == spec_paint_arc(
                *self,
                center,
                inner_radius as int,
                outer_radius as int,
                start_angle as int,
                end_angle as int,
                rotation as int,
            ),
            iabs(start_angle - end_angle) <= ARC_EPSILON ==> out.segments@.len() == 1
                && out.fills@.len() == 0 && out.outline@.len() == 0,
            iabs(start_angle - end_angle) > ARC_EPSILON ==> out.fills@.len() == RESOLUTION
                && out.segments@.len() == 0 && out.outline@.len() == 2 * (RESOLUTION + 1),
    {
        paint_arc(self, center, inner_radius, outer_radius, start_angle, end_angle, rotation)
    }
}

/// Flooring the inner radius makes every inner radius at or below the floor
/// paint the very same strip: in particular a zero inner radius behaves
/// exactly as one of `ARC_INNER_FLOOR`, so no degenerate center
/// quadrilateral is ever emitted.
pub proof fn lemma_paint_arc_inner_floor<S: PolarShape>(
    shape: S,
    center: Pt,
    inner_a: int,
    inner_b: int,
    outer: int,
    start: int,
    end: int,
    rotation: int,
)
    requires
        0 <= inner_a <= ARC_INNER_FLOOR,
        0 <= inner_b <= ARC_INNER_FLOOR,
        iabs(start - end) > ARC_EPSILON,
    ensures
        spec_paint_arc(shape, center, inner_a, outer, start, end, rotation) == spec_paint_arc(
            shape,
            center,
            inner_b,
            outer,
            start,
            end,
            rotation,
        ),
{
}

} // verus!
