//! Parity correctness of the ray-casting classifier on a rectangle.
//!
//! For a convex polygon traced by line segments, every point strictly
//! inside must see an odd total intersection count and every point
//! strictly outside an even one. This module states and proves that law
//! for the axis-aligned rectangle with corners `(0, 0)`, `(0, h)`,
//! `(w, h)`, `(w, 0)`, traced in that order: inside points see exactly
//! one signed crossing (odd), outside points see a total of zero (even).

use vstd::prelude::*;

use crate::fill::sum_intersections;
use crate::segment::COORD_BOUND;
use crate::segment::DEN_BOUND;
use crate::segment::NUM_BOUND;
use crate::segment::Segment;
use crate::segment::SegmentType;
use crate::segment::spec_intersect;

verus! {

/// A line segment from `(x0, y0)` to `(x1, y1)`.
pub open spec fn line_seg(x0: i64, y0: i64, x1: i64, y1: i64) -> Segment {
    Segment {
        segment_type: SegmentType::Line,
        x_start: x0,
        y_start: y0,
        x1: 0,
        y1: 0,
        x2: 0,
        y2: 0,
        x_end: x1,
        y_end: y1,
    }
}

/// The outline of the axis-aligned rectangle with corners `(0, 0)`,
/// `(0, h)`, `(w, h)`, `(w, 0)`, traced from an `Origin` marker at the
/// first corner and ended by a `Close` marker.
pub open spec fn rectangle_outline(w: i64, h: i64) -> Seq<Segment> {
    seq![
        Segment {
            segment_type: SegmentType::Origin,
            x_start: 0,
            y_start: 0,
            x1: 0,
            y1: 0,
            x2: 0,
            y2: 0,
            x_end: 0,
            y_end: 0,
        },
        line_seg(0, 0, 0, h),
        line_seg(0, h, w, h),
        line_seg(w, h, w, 0),
        line_seg(w, 0, 0, 0),
        Segment {
            segment_type: SegmentType::Close,
            x_start: 0,
            y_start: 0,
            x1: 0,
            y1: 0,
            x2: 0,
            y2: 0,
            x_end: 0,
            y_end: 0,
        },
    ]
}

/// Parity correctness on the rectangle: a query point
/// `(qx / den, qy / den)` strictly inside the rectangle sees a total
/// signed intersection count of exactly 1 (odd: the point is filled),
/// and a point strictly outside sees a total of exactly 0 (even: the
/// point is not filled).
pub proof fn lemma_rectangle_parity(w: i64, h: i64, qx: i64, qy: i64, den: i64)
    requires
        0 < w <= COORD_BOUND,
        0 < h <= COORD_BOUND,
        1 <= den <= DEN_BOUND,
        -NUM_BOUND <= qx <= NUM_BOUND,
        -NUM_BOUND <= qy <= NUM_BOUND,
    ensures
        0 < qx && qx < w * den && 0 < qy && qy < h * den ==> sum_intersections(
            rectangle_outline(w, h),
            qx as int,
            qy as int,
            den as int,
        ) == 1,
        qx < 0 || qx > w * den || qy < 0 || qy > h * den ==> sum_intersections(
            rectangle_outline(w, h),
            qx as int,
            qy as int,
            den as int,
        ) == 0,
{
    let gqx = qx as int;
    let gqy = qy as int;
    let d = den as int;
    let s = rectangle_outline(w, h);
    let s0 = s[0];
    let s1 = s[1];
    let s2 = s[2];
    let s3 = s[3];
    let s4 = s[4];
    let s5 = s[5];

    // The left edge (0,0) -> (0,h): its cross product with the query
    // vector is -(h * qx), so a hit needs qx <= 0 and 0 <= qy <= h * den.
    let c1 = (0 - 0) * (gqy - 0 * d) - (h as int - 0) * (gqx - 0 * d);
    assert((0 - 0) * (gqy - 0 * d) - (h as int - 0) * (gqx - 0 * d) == -(h as int * gqx))
        by (nonlinear_arith);
    let w1 = (h as int - 0) * d;
    assert((h as int - 0) * d == h as int * d) by (nonlinear_arith);
    assert(h as int * d >= 1) by (nonlinear_arith)
        requires
            h >= 1,
            d >= 1,
    ;

    // The right edge (w,h) -> (w,0): cross product h * (qx - w * den), a
    // hit needs qx <= w * den and 0 <= qy <= h * den.
    let c3 = (w as int - w as int) * (gqy - h as int * d) - (0 - h as int) * (gqx - w as int * d);
    assert((w as int - w as int) * (gqy - h as int * d) - (0 - h as int) * (gqx - w as int * d)
        == h as int * (gqx - w as int * d)) by (nonlinear_arith);
    let w3 = (0 - h as int) * d;
    assert((0 - h as int) * d == -(h as int * d)) by (nonlinear_arith);
    assert(w3 <= -1);

    // The horizontal edges have zero y extent: no hit.
    assert((h as int - h as int) * d == 0) by (nonlinear_arith);
    assert((0 - 0) * d == 0) by (nonlinear_arith);
    assert(spec_intersect(s2, gqx, gqy, d) == 0);
    assert(spec_intersect(s4, gqx, gqy, d) == 0);
    assert(spec_intersect(s0, gqx, gqy, d) == 0);
    assert(spec_intersect(s5, gqx, gqy, d) == 0);

    // Sign analysis of the two vertical edges in each region.
    if 0 < gqx && gqx < w as int * d && 0 < gqy && gqy < h as int * d {
        assert(h as int * gqx > 0) by (nonlinear_arith)
            requires
                h >= 1,
                gqx > 0,
        ;
        assert(c1 < 0);
        assert(spec_intersect(s1, gqx, gqy, d) == 0);
        assert(h as int * (gqx - w as int * d) < 0) by (nonlinear_arith)
            requires
                h >= 1,
                gqx < w as int * d,
        ;
        assert(c3 < 0);
        assert(gqy - h as int * d <= 0 && w3 <= gqy - h as int * d);
        assert(spec_intersect(s3, gqx, gqy, d) == 1);
    }
    if gqx < 0 || gqx > w as int * d || gqy < 0 || gqy > h as int * d {
        if gqy < 0 || gqy > h as int * d {
            // Both vertical edges are missed on the segment parameter.
            assert(spec_intersect(s1, gqx, gqy, d) == 0);
            assert(spec_intersect(s3, gqx, gqy, d) == 0);
        } else if gqx < 0 {
            // The ray crosses both vertical edges with opposite winding.
            assert(h as int * gqx < 0) by (nonlinear_arith)
                requires
                    h >= 1,
                    gqx < 0,
            ;
            assert(c1 > 0);
            assert(spec_intersect(s1, gqx, gqy, d) == -1);
            assert(w as int * d >= 1) by (nonlinear_arith)
                requires
                    w >= 1,
                    d >= 1,
            ;
            assert(h as int * (gqx - w as int * d) < 0) by (nonlinear_arith)
                requires
                    h >= 1,
                    gqx < w as int * d,
            ;
            assert(c3 < 0);
            assert(spec_intersect(s3, gqx, gqy, d) == 1);
        } else {
            // The point is right of the rectangle: both edges lie behind
            // the ray.
            assert(gqx > w as int * d);
            assert(gqx > 0) by (nonlinear_arith)
                requires
                    gqx > w as int * d,
                    w >= 1,
                    d >= 1,
            ;
            assert(h as int * gqx > 0) by (nonlinear_arith)
                requires
                    h >= 1,
                    gqx > 0,
            ;
            assert(c1 < 0);
            assert(spec_intersect(s1, gqx, gqy, d) == 0);
            assert(h as int * (gqx - w as int * d) > 0) by (nonlinear_arith)
                requires
                    h >= 1,
                    gqx > w as int * d,
            ;
            assert(c3 > 0);
            assert(spec_intersect(s3, gqx, gqy, d) == 0);
        }
    }

    // Fold the six per-segment counts into the outline sum.
    let t0 = seq![s0];
    let t1 = seq![s0, s1];
    let t2 = seq![s0, s1, s2];
    let t3 = seq![s0, s1, s2, s3];
    let t4 = seq![s0, s1, s2, s3, s4];
    assert(t0.drop_last() =~= Seq::<Segment>::empty());
    assert(t1.drop_last() =~= t0);
    assert(t2.drop_last() =~= t1);
    assert(t3.drop_last() =~= t2);
    assert(t4.drop_last() =~= t3);
    assert(s.drop_last() =~= t4);
    assert(t0.last() == s0 && t1.last() == s1 && t2.last() == s2 && t3.last() == s3 && t4.last()
        == s4 && s.last() == s5);
    assert(sum_intersections(Seq::<Segment>::empty(), gqx, gqy, d) == 0);
    assert(sum_intersections(t0, gqx, gqy, d) == spec_intersect(s0, gqx, gqy, d));
    assert(sum_intersections(t1, gqx, gqy, d) == sum_intersections(t0, gqx, gqy, d)
        + spec_intersect(s1, gqx, gqy, d));
    assert(sum_intersections(t2, gqx, gqy, d) == sum_intersections(t1, gqx, gqy, d)
        + spec_intersect(s2, gqx, gqy, d));
    assert(sum_intersections(t3, gqx, gqy, d) == sum_intersections(t2, gqx, gqy, d)
        + spec_intersect(s3, gqx, gqy, d));
    assert(sum_intersections(t4, gqx, gqy, d) == sum_intersections(t3, gqx, gqy, d)
        + spec_intersect(s4, gqx, gqy, d));
    assert(sum_intersections(s, gqx, gqy, d) == sum_intersections(t4, gqx, gqy, d)
        + spec_intersect(s5, gqx, gqy, d));
    assert(sum_intersections(s, gqx, gqy, d) == spec_intersect(s1, gqx, gqy, d) + spec_intersect(
        s3,
        gqx,
        gqy,
        d,
    ));
}

/// The fill decision on the rectangle, at the user-facing level: a device
/// pixel point whose font-unit image lies strictly inside the rectangle
/// is classified filled, and one whose image lies strictly outside is
/// classified unfilled. The font-unit image of `(x_num / den, y_num /
/// den)` is `(x_num * 72 * upm / (den * ps * res), ...)`, compared here
/// against the rectangle over the common denominator `den * ps * res`.
pub proof fn lemma_rectangle_fill(
    w: i64,
    h: i64,
    x_num: i64,
    y_num: i64,
    den: i64,
    units_per_em: i64,
    point_size: i64,
    resolution: i64,
)
    requires
        0 < w <= COORD_BOUND,
        0 < h <= COORD_BOUND,
        1 <= den <= 32,
        -2048 * den <= x_num <= 2048 * den,
        -2048 * den <= y_num <= 2048 * den,
        1 <= units_per_em <= 4096,
        1 <= point_size,
        1 <= resolution,
        point_size * resolution <= 32768,
    ensures
        0 < x_num * (72 * units_per_em) && x_num * (72 * units_per_em) < w * (den * (point_size
            * resolution)) && 0 < y_num * (72 * units_per_em) && y_num * (72 * units_per_em) < h
            * (den * (point_size * resolution)) ==> crate::fill::spec_should_draw(
            rectangle_outline(w, h),
            x_num as int,
            y_num as int,
            den as int,
            0,
            0,
            units_per_em as int,
            point_size as int,
            resolution as int,
        ),
        x_num * (72 * units_per_em) < 0 || x_num * (72 * units_per_em) > w * (den * (point_size
            * resolution)) || y_num * (72 * units_per_em) < 0 || y_num * (72 * units_per_em) > h
            * (den * (point_size * resolution)) ==> !crate::fill::spec_should_draw(
            rectangle_outline(w, h),
            x_num as int,
            y_num as int,
            den as int,
            0,
            0,
            units_per_em as int,
            point_size as int,
            resolution as int,
        ),
{
    let rn = point_size as int * resolution as int;
    let qden = den as int * rn;
    let rd = 72 * units_per_em as int;
    let qx = x_num as int * rd + 0 * qden;
    let qy = y_num as int * rd + 0 * qden;
    assert(0 * qden == 0) by (nonlinear_arith);
    assert(qx == x_num as int * rd && qy == y_num as int * rd);
    assert(1 <= qden <= DEN_BOUND && -NUM_BOUND <= qx <= NUM_BOUND && -NUM_BOUND <= qy
        <= NUM_BOUND) by (nonlinear_arith)
        requires
            qden == den as int * (point_size as int * resolution as int),
            qx == x_num as int * (72 * units_per_em as int),
            qy == y_num as int * (72 * units_per_em as int),
            1 <= den <= 32,
            -2048 * den as int <= x_num as int <= 2048 * den as int,
            -2048 * den as int <= y_num as int <= 2048 * den as int,
            1 <= units_per_em <= 4096,
            1 <= point_size,
            1 <= resolution,
            point_size as int * resolution as int <= 32768,
            DEN_BOUND == 1048576,
            NUM_BOUND == 68719476736,
    ;
    // The rectangle comparison over the scaled denominator agrees with the
    // parity lemma's inside and outside regions.
    assert(w as int * (den as int * rn) == w as int * qden && h as int * (den as int * rn)
        == h as int * qden) by (nonlinear_arith)
        requires
            qden == den as int * rn,
    ;
    // The parity lemma needs i64 arguments; the scaled query fits.
    let qxs = qx as i64;
    let qys = qy as i64;
    let dens = qden as i64;
    lemma_rectangle_parity(w, h, qxs, qys, dens);
}

} // verus!
