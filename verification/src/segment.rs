//! The segment model: one drawing primitive of a glyph outline, and the
//! ray-intersection counting for lines.
//!
//! Coordinates are integers in font design units. A query point is a
//! rational `(x_num / den, y_num / den)` with `den > 0`; translating a
//! segment's coordinates into the query point's frame multiplies them by
//! `den` and subtracts the numerators, which keeps every comparison exact.

use vstd::prelude::*;

verus! {

/// The kind of drawing primitive a segment represents.
///
/// `Origin` marks the start of a subpath and `Close` marks its end; both
/// contribute zero ray intersections. `Line`, `Quad` and `Cubic` are the
/// geometric primitives.
#[derive(Clone, Copy, Debug, PartialEq, Eq, Structural)]
pub enum SegmentType {
    Origin,
    Line,
    Quad,
    Cubic,
    Close,
}

/// One outline primitive. All coordinates are in font design units.
///
/// Only some fields are meaningful for each kind: `x1`/`y1` for `Quad`
/// and `Cubic`, `x2`/`y2` only for `Cubic`; `Close` carries no meaningful
/// coordinates at all. Within an outline, each segment's start point
/// equals the previous segment's end point (the chain invariant).
#[derive(Clone, Copy, Debug, PartialEq, Eq, Structural)]
pub struct Segment {
    pub segment_type: SegmentType,
    pub x_start: i64,
    pub y_start: i64,
    pub x1: i64,
    pub y1: i64,
    pub x2: i64,
    pub y2: i64,
    pub x_end: i64,
    pub y_end: i64,
}

/// Largest magnitude allowed for a segment coordinate (font design units).
pub const COORD_BOUND: i64 = 65536;

/// Largest allowed denominator of a query point.
pub const DEN_BOUND: i64 = 1048576;

/// Largest magnitude allowed for a query point numerator.
pub const NUM_BOUND: i64 = 68719476736;

/// 2D cross product of `(ux, uy)` and `(vx, vy)`.
pub open spec fn spec_cross(ux: int, uy: int, vx: int, vy: int) -> int {
    ux * vy - uy * vx
}

/// All of a segment's coordinates are small enough for the exact
/// intersection arithmetic (a machine limit, not a geometric one).
pub open spec fn seg_in_bounds(s: Segment) -> bool {
    &&& -COORD_BOUND <= s.x_start <= COORD_BOUND
    &&& -COORD_BOUND <= s.y_start <= COORD_BOUND
    &&& -COORD_BOUND <= s.x1 <= COORD_BOUND
    &&& -COORD_BOUND <= s.y1 <= COORD_BOUND
    &&& -COORD_BOUND <= s.x2 <= COORD_BOUND
    &&& -COORD_BOUND <= s.y2 <= COORD_BOUND
    &&& -COORD_BOUND <= s.x_end <= COORD_BOUND
    &&& -COORD_BOUND <= s.y_end <= COORD_BOUND
}

/// The query point `(x_num / den, y_num / den)` is within the machine
/// limits of the exact intersection arithmetic.
pub open spec fn query_in_bounds(x_num: int, y_num: int, den: int) -> bool {
    &&& 1 <= den <= DEN_BOUND as int
    &&& -NUM_BOUND <= x_num <= NUM_BOUND
    &&& -NUM_BOUND <= y_num <= NUM_BOUND
}

/// 2D cross product, exact.
pub fn cross(ux: i128, uy: i128, vx: i128, vy: i128) -> (r: i128)
    requires
        -0x1000_0000_0000_0000 <= ux <= 0x1000_0000_0000_0000,
        -0x1000_0000_0000_0000 <= uy <= 0x1000_0000_0000_0000,
        -0x1000_0000_0000_0000 <= vx <= 0x1000_0000_0000_0000,
        -0x1000_0000_0000_0000 <= vy <= 0x1000_0000_0000_0000,
    ensures
        r == spec_cross(ux as int, uy as int, vx as int, vy as int),
{
    proof {
        let b: int = 0x1000_0000_0000_0000;
        assert(-(b * b) <= ux * vy <= b * b && -(b * b) <= uy * vx <= b * b)
            by (nonlinear_arith)
            requires -b <= ux <= b, -b <= uy <= b, -b <= vx <= b, -b <= vy <= b;
    }
    ux * vy - uy * vx
}

/// Sign of the cross product of the directed segment `(x1,y1) -> (x2,y2)`
/// with the vector from `(x1,y1)` to the query point: `-1` when the query
/// point lies to the left of the directed segment, `+1` when it lies to
/// the right, `0` when it is collinear with the segment's carrier line.
/// The query point is the rational `(px_num / den, py_num / den)`.
pub open spec fn spec_side(
    px_num: int,
    py_num: int,
    den: int,
    x1: int,
    y1: int,
    x2: int,
    y2: int,
) -> int {
    let c = spec_cross(x2 - x1, y2 - y1, px_num - x1 * den, py_num - y1 * den);
    if c > 0 {
        -1
    } else if c < 0 {
        1
    } else {
        0
    }
}

/// Which side of the directed segment `(x1,y1) -> (x2,y2)` the query point
/// lies on: `-1` for left, `+1` for right, `0` for collinear.
pub fn get_side(px_num: i64, py_num: i64, den: i64, x1: i64, y1: i64, x2: i64, y2: i64) -> (r: i32)
    requires
        query_in_bounds(px_num as int, py_num as int, den as int),
        -COORD_BOUND <= x1 <= COORD_BOUND,
        -COORD_BOUND <= y1 <= COORD_BOUND,
        -COORD_BOUND <= x2 <= COORD_BOUND,
        -COORD_BOUND <= y2 <= COORD_BOUND,
    ensures
        r as int == spec_side(
            px_num as int, py_num as int, den as int,
            x1 as int, y1 as int, x2 as int, y2 as int,
        ),
{
    proof {
        assert(-0x1_0000_0000_0000i128 <= x1 as i128 * den as i128 <= 0x1_0000_0000_0000i128
            && -0x1_0000_0000_0000i128 <= y1 as i128 * den as i128 <= 0x1_0000_0000_0000i128)
            by (nonlinear_arith)
            requires
                -COORD_BOUND <= x1 <= COORD_BOUND,
                -COORD_BOUND <= y1 <= COORD_BOUND,
                1 <= den <= DEN_BOUND;
    }
    let vx: i128 = (x2 - x1) as i128;
    let vy: i128 = (y2 - y1) as i128;
    let wx: i128 = px_num as i128 - x1 as i128 * den as i128;
    let wy: i128 = py_num as i128 - y1 as i128 * den as i128;
    let c = cross(vx, vy, wx, wy);
    if c > 0 {
        -1
    } else if c < 0 {
        1
    } else {
        0
    }
}

/// Signed count of intersections of the horizontal ray from the query
/// point (cast toward positive x) with the line segment from
/// `(x_start, y_start)` to `(x_end, y_end)`.
///
/// Writing `w = (y_end - y_start) * den`, `wy = qy - y_start * den` and
/// `c` for the cross product of the segment direction with the vector
/// from the segment start to the query point: the segment parameter of
/// the meeting point is `wy / w` and the ray parameter is proportional
/// to `c / w`, so the ray meets the segment exactly when `wy / w` lies
/// in `[0, 1]` and `c` agrees in sign with `w`. A hit contributes the
/// side sign of the query point relative to the directed segment
/// (winding direction); a ray parallel to the segment, or a collinear
/// query point, contributes 0.
pub open spec fn spec_line_intersect(s: Segment, qx: int, qy: int, den: int) -> int {
    let vy = s.y_end as int - s.y_start as int;
    let w = vy * den;
    let wy = qy - s.y_start as int * den;
    let c = spec_cross(s.x_end as int - s.x_start as int, vy, qx - s.x_start as int * den, wy);
    if ((w > 0 && 0 <= wy && wy <= w) || (w < 0 && w <= wy && wy <= 0)) && ((w > 0 && c >= 0) || (
    w < 0 && c <= 0)) {
        spec_side(qx, qy, den, s.x_start as int, s.y_start as int, s.x_end as int, s.y_end as int)
    } else {
        0
    }
}

/// Number of ray crossings contributed by one segment: the signed line
/// count for `Line`, the exact curve crossing count for `Quad` (through
/// its degree elevation to a cubic) and `Cubic`, and 0 for the
/// non-geometric `Origin` and `Close` markers. The segment coordinates
/// are translated into the query point's frame (and scaled by `den`), so
/// the ray is the positive x axis from the origin.
pub open spec fn spec_intersect(s: Segment, qx: int, qy: int, den: int) -> int {
    match s.segment_type {
        SegmentType::Origin => 0,
        SegmentType::Close => 0,
        SegmentType::Line => spec_line_intersect(s, qx, qy, den),
        SegmentType::Quad => {
            let ax = s.x_start as int * den - qx;
            let ay = s.y_start as int * den - qy;
            let bx = s.x1 as int * den - qx;
            let by = s.y1 as int * den - qy;
            let cx = s.x_end as int * den - qx;
            let cy = s.y_end as int * den - qy;
            crate::curve::spec_curve_hits(
                3 * ax,
                ax + 2 * bx,
                2 * bx + cx,
                3 * cx,
                3 * ay,
                ay + 2 * by,
                2 * by + cy,
                3 * cy,
            )
        },
        SegmentType::Cubic => {
            crate::curve::spec_curve_hits(
                s.x_start as int * den - qx,
                s.x1 as int * den - qx,
                s.x2 as int * den - qx,
                s.x_end as int * den - qx,
                s.y_start as int * den - qy,
                s.y1 as int * den - qy,
                s.y2 as int * den - qy,
                s.y_end as int * den - qy,
            )
        },
    }
}

/// The intersection count of a segment depends only on the query point's
/// value, not on the fraction chosen to represent it: scaling numerators
/// and denominator by one positive factor changes nothing.
pub proof fn lemma_intersect_representation_independent(
    s: Segment,
    qx: int,
    qy: int,
    den: int,
    k: int,
)
    requires
        k >= 1,
        den >= 1,
    ensures
        spec_intersect(s, k * qx, k * qy, k * den) == spec_intersect(s, qx, qy, den),
{
    match s.segment_type {
        SegmentType::Origin => {},
        SegmentType::Close => {},
        SegmentType::Line => {
            let vx = s.x_end as int - s.x_start as int;
            let vy = s.y_end as int - s.y_start as int;
            let w = vy * den;
            let wy = qy - s.y_start as int * den;
            let wx = qx - s.x_start as int * den;
            let c = spec_cross(vx, vy, wx, wy);
            assert(vy * (k * den) == k * (vy * den) && s.y_start as int * (k * den) == k
                * (s.y_start as int * den) && s.x_start as int * (k * den) == k * (s.x_start as int
                * den)) by (nonlinear_arith);
            assert(k * qy - s.y_start as int * (k * den) == k * wy && k * qx - s.x_start as int * (
            k * den) == k * wx) by (nonlinear_arith)
                requires
                    wy == qy - s.y_start as int * den,
                    wx == qx - s.x_start as int * den,
            ;
            assert(vx * (k * wy) - vy * (k * wx) == k * c) by (nonlinear_arith)
                requires
                    c == vx * wy - vy * wx,
            ;
            assert(spec_cross(vx, vy, k * wx, k * wy) == vx * (k * wy) - vy * (k * wx));
            crate::curve::lemma_scale_signs(k, w);
            crate::curve::lemma_scale_signs(k, wy);
            crate::curve::lemma_scale_signs(k, c);
            crate::curve::lemma_scale_le(k, wy, w);
            crate::curve::lemma_scale_le(k, w, wy);
        },
        SegmentType::Quad => {
            let ax = s.x_start as int * den - qx;
            let ay = s.y_start as int * den - qy;
            let bx = s.x1 as int * den - qx;
            let by = s.y1 as int * den - qy;
            let cx = s.x_end as int * den - qx;
            let cy = s.y_end as int * den - qy;
            assert(s.x_start as int * (k * den) - k * qx == k * ax && s.y_start as int * (k * den)
                - k * qy == k * ay && s.x1 as int * (k * den) - k * qx == k * bx && s.y1 as int * (
            k * den) - k * qy == k * by && s.x_end as int * (k * den) - k * qx == k * cx
                && s.y_end as int * (k * den) - k * qy == k * cy) by (nonlinear_arith)
                requires
                    ax == s.x_start as int * den - qx,
                    ay == s.y_start as int * den - qy,
                    bx == s.x1 as int * den - qx,
                    by == s.y1 as int * den - qy,
                    cx == s.x_end as int * den - qx,
                    cy == s.y_end as int * den - qy,
            ;
            assert(3 * (k * ax) == k * (3 * ax) && k * ax + 2 * (k * bx) == k * (ax + 2 * bx) && 2
                * (k * bx) + k * cx == k * (2 * bx + cx) && 3 * (k * cx) == k * (3 * cx) && 3 * (k
                * ay) == k * (3 * ay) && k * ay + 2 * (k * by) == k * (ay + 2 * by) && 2 * (k * by)
                + k * cy == k * (2 * by + cy) && 3 * (k * cy) == k * (3 * cy)) by (nonlinear_arith);
            crate::curve::lemma_curve_hits_scale_invariant(
                k,
                3 * ax,
                ax + 2 * bx,
                2 * bx + cx,
                3 * cx,
                3 * ay,
                ay + 2 * by,
                2 * by + cy,
                3 * cy,
            );
        },
        SegmentType::Cubic => {
            let ax = s.x_start as int * den - qx;
            let ay = s.y_start as int * den - qy;
            let bx = s.x1 as int * den - qx;
            let by = s.y1 as int * den - qy;
            let cx = s.x2 as int * den - qx;
            let cy = s.y2 as int * den - qy;
            let ex = s.x_end as int * den - qx;
            let ey = s.y_end as int * den - qy;
            assert(s.x_start as int * (k * den) - k * qx == k * ax && s.y_start as int * (k * den)
                - k * qy == k * ay && s.x1 as int * (k * den) - k * qx == k * bx && s.y1 as int * (
            k * den) - k * qy == k * by && s.x2 as int * (k * den) - k * qx == k * cx
                && s.y2 as int * (k * den) - k * qy == k * cy && s.x_end as int * (k * den) - k
                * qx == k * ex && s.y_end as int * (k * den) - k * qy == k * ey)
                by (nonlinear_arith)
                requires
                    ax == s.x_start as int * den - qx,
                    ay == s.y_start as int * den - qy,
                    bx == s.x1 as int * den - qx,
                    by == s.y1 as int * den - qy,
                    cx == s.x2 as int * den - qx,
                    cy == s.y2 as int * den - qy,
                    ex == s.x_end as int * den - qx,
                    ey == s.y_end as int * den - qy,
            ;
            crate::curve::lemma_curve_hits_scale_invariant(k, ax, bx, cx, ex, ay, by, cy, ey);
        },
    }
}

/// The two cheap rejection tests for a quadratic segment, as theorems:
/// if all three control points translated to the query point's frame have
/// negative x, the positive-x ray cannot reach the curve; and if all
/// three translated y values share one strict sign, the curve cannot
/// cross the ray's line. Either way the segment contributes nothing.
pub proof fn lemma_quad_rejections(s: Segment, qx: int, qy: int, den: int)
    requires
        s.segment_type == SegmentType::Quad,
        den >= 1,
    ensures
        s.x_start * den - qx < 0 && s.x1 * den - qx < 0 && s.x_end * den - qx < 0
            ==> spec_intersect(s, qx, qy, den) == 0,
        (s.y_start * den - qy > 0 && s.y1 * den - qy > 0 && s.y_end * den - qy > 0) || (s.y_start
            * den - qy < 0 && s.y1 * den - qy < 0 && s.y_end * den - qy < 0) ==> spec_intersect(
            s,
            qx,
            qy,
            den,
        ) == 0,
{
    let ax = s.x_start as int * den - qx;
    let ay = s.y_start as int * den - qy;
    let bx = s.x1 as int * den - qx;
    let by = s.y1 as int * den - qy;
    let cx = s.x_end as int * den - qx;
    let cy = s.y_end as int * den - qy;
    if ax < 0 && bx < 0 && cx < 0 {
        crate::curve::lemma_crossings_x_negative(
            3 * ax,
            ax + 2 * bx,
            2 * bx + cx,
            3 * cx,
            3 * ay,
            ay + 2 * by,
            2 * by + cy,
            3 * cy,
            crate::curve::CURVE_DEPTH as nat,
        );
    }
    if (ay > 0 && by > 0 && cy > 0) || (ay < 0 && by < 0 && cy < 0) {
        crate::curve::lemma_crossings_y_one_side(
            3 * ax,
            ax + 2 * bx,
            2 * bx + cx,
            3 * cx,
            3 * ay,
            ay + 2 * by,
            2 * by + cy,
            3 * cy,
            crate::curve::CURVE_DEPTH as nat,
        );
    }
}

/// Translates one segment coordinate into the query point's frame:
/// `c * den - n`, exact, with a bound for the curve arithmetic.
fn translate(c: i64, den: i64, n: i64) -> (r: i128)
    requires
        -COORD_BOUND <= c <= COORD_BOUND,
        1 <= den <= DEN_BOUND,
        -NUM_BOUND <= n <= NUM_BOUND,
    ensures
        r as int == c * den - n,
        -137438953472 <= r <= 137438953472,
{
    proof {
        assert(-68719476736i128 <= c as i128 * den as i128 <= 68719476736i128)
            by (nonlinear_arith)
            requires
                -COORD_BOUND <= c <= COORD_BOUND,
                1 <= den <= DEN_BOUND,
        ;
    }
    c as i128 * den as i128 - n as i128
}

impl Segment {
    /// Counts the intersections of a ray with origin at the query point
    /// `(x_num / den, y_num / den)` and direction `(dx, dy)` with this
    /// segment. The ray direction is fixed to the positive x axis
    /// throughout the system; the parameters exist for generality.
    ///
    /// `Line` contributions are signed by winding direction (`-1`, `0` or
    /// `+1`); `Quad` and `Cubic` contributions are nonnegative transversal
    /// crossing counts; `Origin` and `Close` contribute 0. Tangential
    /// contacts and crossings behind the ray origin are never counted.
    pub fn intersect(&self, x_num: i64, y_num: i64, den: i64, dx: i64, dy: i64) -> (r: i32)
        requires
            seg_in_bounds(*self),
            query_in_bounds(x_num as int, y_num as int, den as int),
            dx == 1,
            dy == 0,
        ensures
            r as int == spec_intersect(*self, x_num as int, y_num as int, den as int),
            -1 <= r <= 268435457,
            self.segment_type == SegmentType::Origin ==> r == 0,
            self.segment_type == SegmentType::Close ==> r == 0,
            self.segment_type == SegmentType::Line ==> -1 <= r <= 1,
            self.segment_type == SegmentType::Quad ==> 0 <= r,
            self.segment_type == SegmentType::Cubic ==> 0 <= r,
    {
        match self.segment_type {
            SegmentType::Origin => 0,
            SegmentType::Close => 0,
            SegmentType::Line => {
                let vy = self.y_end - self.y_start;
                proof {
                    assert(-137438953472i128 <= vy as i128 * den as i128 <= 137438953472i128)
                        by (nonlinear_arith)
                        requires
                            -2 * COORD_BOUND <= vy <= 2 * COORD_BOUND,
                            1 <= den <= DEN_BOUND,
                    ;
                }
                let w: i128 = vy as i128 * den as i128;
                let wy: i128 = -translate(self.y_start, den, y_num);
                let t2_ok = (w > 0 && 0 <= wy && wy <= w) || (w < 0 && w <= wy && wy <= 0);
                if !t2_ok {
                    return 0;
                }
                let wx: i128 = -translate(self.x_start, den, x_num);
                let c = cross((self.x_end - self.x_start) as i128, vy as i128, wx, wy);
                let t1_ok = (w > 0 && c >= 0) || (w < 0 && c <= 0);
                if t1_ok {
                    get_side(x_num, y_num, den, self.x_start, self.y_start, self.x_end, self.y_end)
                } else {
                    0
                }
            },
            SegmentType::Quad => {
                let ax = translate(self.x_start, den, x_num);
                let ay = translate(self.y_start, den, y_num);
                let bx = translate(self.x1, den, x_num);
                let by = translate(self.y1, den, y_num);
                let cx = translate(self.x_end, den, x_num);
                let cy = translate(self.y_end, den, y_num);
                crate::curve::curve_hits(
                    3 * ax,
                    ax + 2 * bx,
                    2 * bx + cx,
                    3 * cx,
                    3 * ay,
                    ay + 2 * by,
                    2 * by + cy,
                    3 * cy,
                )
            },
            SegmentType::Cubic => {
                let ax = translate(self.x_start, den, x_num);
                let ay = translate(self.y_start, den, y_num);
                let bx = translate(self.x1, den, x_num);
                let by = translate(self.y1, den, y_num);
                let cx = translate(self.x2, den, x_num);
                let cy = translate(self.y2, den, y_num);
                let ex = translate(self.x_end, den, x_num);
                let ey = translate(self.y_end, den, y_num);
                crate::curve::curve_hits(ax, bx, cx, ex, ay, by, cy, ey)
            },
        }
    }
}

} // verus!
