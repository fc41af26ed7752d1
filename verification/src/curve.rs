//! Exact counting of transversal crossings between a cubic Bezier curve and
//! the positive-x ray from the origin.
//!
//! The curve is given by four integer control points, already translated so
//! that the query point is the origin. The counter subdivides the curve at
//! the parameter midpoint (de Casteljau); to keep every value an integer,
//! each subdivision multiplies the control points by 8, which changes no
//! sign and no zero test. A piece is resolved without further subdivision
//! when the convex-hull property decides it:
//!  - all control y strictly one sign: the piece never meets the ray's line;
//!  - all control x negative: any crossing lies behind the ray's origin;
//!  - all control x positive, control y monotone, and the endpoint y values
//!    of strictly opposite sign: exactly one transversal crossing, in front
//!    of the origin.
//! A root landing exactly on a subdivision point is detected by a zero
//! endpoint value and counted by the parity of its multiplicity, read off
//! the derivative control values: tangential (even-multiplicity) contacts
//! contribute zero, as degenerate geometry must. Pieces still unresolved at
//! the depth limit (features finer than 2^-27 of the parameter interval)
//! contribute zero.
//!
//! A quadratic Bezier is counted through its exact degree elevation to a
//! cubic (control points scaled by 3).

use vstd::prelude::*;

verus! {

/// Subdivision depth limit.
pub const CURVE_DEPTH: u32 = 27;

/// Magnitude cap for control values across all subdivision levels: 2^120.
pub const VALUE_CAP: i128 = 1329227995784915872903807060280344576;

/// Largest control-point magnitude accepted at the top level, 2^39:
/// multiplied by 8 for each of the `CURVE_DEPTH` levels it stays below
/// `VALUE_CAP`.
pub const TOP_COORD_CAP: i128 = 549755813888;

/// 8^d.
pub open spec fn pow8(d: nat) -> int
    decreases d,
{
    if d == 0 {
        1
    } else {
        8 * pow8((d - 1) as nat)
    }
}

/// A control value small enough that scaling it by 8 for `d` more
/// subdivision levels stays within `VALUE_CAP`.
pub open spec fn cap_ok(v: int, d: nat) -> bool {
    -(VALUE_CAP as int) <= v * pow8(d) <= VALUE_CAP as int
}

pub proof fn lemma_pow8_pos(d: nat)
    ensures
        pow8(d) >= 1,
    decreases d,
{
    if d > 0 {
        lemma_pow8_pos((d - 1) as nat);
    }
}

/// A capped value is itself within `VALUE_CAP`.
pub proof fn lemma_cap_val(v: int, d: nat)
    requires
        cap_ok(v, d),
    ensures
        -(VALUE_CAP as int) <= v <= VALUE_CAP as int,
{
    lemma_pow8_pos(d);
    assert(-(VALUE_CAP as int) <= v <= VALUE_CAP as int) by (nonlinear_arith)
        requires
            pow8(d) >= 1,
            -(VALUE_CAP as int) <= v * pow8(d) <= VALUE_CAP as int,
    ;
}

/// De Casteljau midpoint subdivision (scaled by 8) keeps all control
/// values capped at the next depth.
pub proof fn lemma_split_cap(p0: int, p1: int, p2: int, p3: int, d: nat)
    requires
        d >= 1,
        cap_ok(p0, d),
        cap_ok(p1, d),
        cap_ok(p2, d),
        cap_ok(p3, d),
    ensures
        cap_ok(8 * p0, (d - 1) as nat),
        cap_ok(4 * (p0 + p1), (d - 1) as nat),
        cap_ok(2 * (p0 + 2 * p1 + p2), (d - 1) as nat),
        cap_ok(p0 + 3 * p1 + 3 * p2 + p3, (d - 1) as nat),
        cap_ok(2 * (p1 + 2 * p2 + p3), (d - 1) as nat),
        cap_ok(4 * (p2 + p3), (d - 1) as nat),
        cap_ok(8 * p3, (d - 1) as nat),
{
    lemma_pow8_pos((d - 1) as nat);
    let q = pow8((d - 1) as nat);
    let c = VALUE_CAP as int;
    assert(pow8(d) == 8 * q);
    assert(-c <= (8 * p0) * q <= c && -c <= (4 * (p0 + p1)) * q <= c && -c <= (2 * (p0 + 2 * p1
        + p2)) * q <= c && -c <= (p0 + 3 * p1 + 3 * p2 + p3) * q <= c && -c <= (2 * (p1 + 2 * p2
        + p3)) * q <= c && -c <= (4 * (p2 + p3)) * q <= c && -c <= (8 * p3) * q <= c)
        by (nonlinear_arith)
        requires
            q >= 1,
            -c <= p0 * (8 * q) <= c,
            -c <= p1 * (8 * q) <= c,
            -c <= p2 * (8 * q) <= c,
            -c <= p3 * (8 * q) <= c,
    ;
}

/// The control y values all lie strictly on one side of the ray's line.
pub open spec fn y_one_side(y0: int, y1: int, y2: int, y3: int) -> bool {
    (y0 > 0 && y1 > 0 && y2 > 0 && y3 > 0) || (y0 < 0 && y1 < 0 && y2 < 0 && y3 < 0)
}

/// The control y values are monotone, so the curve's y is monotone too.
pub open spec fn y_monotone(y0: int, y1: int, y2: int, y3: int) -> bool {
    (y0 <= y1 && y1 <= y2 && y2 <= y3) || (y0 >= y1 && y1 >= y2 && y2 >= y3)
}

/// A root of y at the left end of a piece with control y values
/// `(0, y1, y2, y3)` has odd multiplicity, i.e. the curve crosses the
/// ray's line there rather than touching it.
pub open spec fn odd_mult_at_start(y1: int, y2: int, y3: int) -> bool {
    y1 != 0 || (y2 == 0 && y3 != 0)
}

/// Number of transversal crossings of the curve piece with the positive-x
/// ray at parameters strictly inside the piece, resolved down to
/// subdivision depth `d`; crossings exactly at a subdivision midpoint are
/// counted by the parity of their multiplicity. Mirrors `count_crossings`.
pub open spec fn spec_crossings(
    x0: int,
    x1: int,
    x2: int,
    x3: int,
    y0: int,
    y1: int,
    y2: int,
    y3: int,
    d: nat,
) -> int
    decreases d,
{
    if y0 == 0 && y1 == 0 && y2 == 0 && y3 == 0 {
        0
    } else if y_one_side(y0, y1, y2, y3) {
        0
    } else if x0 < 0 && x1 < 0 && x2 < 0 && x3 < 0 {
        0
    } else if x0 > 0 && x1 > 0 && x2 > 0 && x3 > 0 && y_monotone(y0, y1, y2, y3) && ((y0 < 0 && y3
    > 0) || (y0 > 0 && y3 < 0)) {
        1
    } else if d == 0 {
        0
    } else {
        let lx1 = 4 * (x0 + x1);
        let lx2 = 2 * (x0 + 2 * x1 + x2);
        let mx = x0 + 3 * x1 + 3 * x2 + x3;
        let rx2 = 2 * (x1 + 2 * x2 + x3);
        let rx1 = 4 * (x2 + x3);
        let ly1 = 4 * (y0 + y1);
        let ly2 = 2 * (y0 + 2 * y1 + y2);
        let my = y0 + 3 * y1 + 3 * y2 + y3;
        let ry2 = 2 * (y1 + 2 * y2 + y3);
        let ry1 = 4 * (y2 + y3);
        let mid: int = if my == 0 && mx > 0 && odd_mult_at_start(ry2, ry1, 8 * y3) {
            1
        } else {
            0
        };
        spec_crossings(8 * x0, lx1, lx2, mx, 8 * y0, ly1, ly2, my, (d - 1) as nat) + mid
            + spec_crossings(mx, rx2, rx1, 8 * x3, my, ry2, ry1, 8 * y3, (d - 1) as nat)
    }
}

/// Largest value `spec_crossings` can return at depth `d`: 2^(d+1) - 1.
pub open spec fn crossings_bound(d: nat) -> int
    decreases d,
{
    if d == 0 {
        1
    } else {
        2 * crossings_bound((d - 1) as nat) + 1
    }
}

pub proof fn lemma_crossings_range(
    x0: int,
    x1: int,
    x2: int,
    x3: int,
    y0: int,
    y1: int,
    y2: int,
    y3: int,
    d: nat,
)
    ensures
        0 <= spec_crossings(x0, x1, x2, x3, y0, y1, y2, y3, d) <= crossings_bound(d),
    decreases d,
{
    if d > 0 {
        lemma_crossings_range(
            8 * x0,
            4 * (x0 + x1),
            2 * (x0 + 2 * x1 + x2),
            x0 + 3 * x1 + 3 * x2 + x3,
            8 * y0,
            4 * (y0 + y1),
            2 * (y0 + 2 * y1 + y2),
            y0 + 3 * y1 + 3 * y2 + y3,
            (d - 1) as nat,
        );
        lemma_crossings_range(
            x0 + 3 * x1 + 3 * x2 + x3,
            2 * (x1 + 2 * x2 + x3),
            4 * (x2 + x3),
            8 * x3,
            y0 + 3 * y1 + 3 * y2 + y3,
            2 * (y1 + 2 * y2 + y3),
            4 * (y2 + y3),
            8 * y3,
            (d - 1) as nat,
        );
    }
}

pub proof fn lemma_crossings_bound_27()
    ensures
        crossings_bound(27) == 0xfffffff,
{
    reveal_with_fuel(crossings_bound, 29);
}

/// If all translated y coordinates share one strict sign, the curve stays
/// on one side of the ray's line and there is no crossing.
pub proof fn lemma_crossings_y_one_side(
    x0: int,
    x1: int,
    x2: int,
    x3: int,
    y0: int,
    y1: int,
    y2: int,
    y3: int,
    d: nat,
)
    requires
        y_one_side(y0, y1, y2, y3),
    ensures
        spec_crossings(x0, x1, x2, x3, y0, y1, y2, y3, d) == 0,
{
}

/// If all translated x coordinates are negative, every crossing would lie
/// behind the ray's origin and none is counted.
pub proof fn lemma_crossings_x_negative(
    x0: int,
    x1: int,
    x2: int,
    x3: int,
    y0: int,
    y1: int,
    y2: int,
    y3: int,
    d: nat,
)
    requires
        x0 < 0 && x1 < 0 && x2 < 0 && x3 < 0,
    ensures
        spec_crossings(x0, x1, x2, x3, y0, y1, y2, y3, d) == 0,
{
}

/// Exact crossing counter for one curve piece; see `spec_crossings`.
pub fn count_crossings(
    x0: i128,
    x1: i128,
    x2: i128,
    x3: i128,
    y0: i128,
    y1: i128,
    y2: i128,
    y3: i128,
    d: u32,
) -> (r: i32)
    requires
        d <= CURVE_DEPTH,
        cap_ok(x0 as int, d as nat),
        cap_ok(x1 as int, d as nat),
        cap_ok(x2 as int, d as nat),
        cap_ok(x3 as int, d as nat),
        cap_ok(y0 as int, d as nat),
        cap_ok(y1 as int, d as nat),
        cap_ok(y2 as int, d as nat),
        cap_ok(y3 as int, d as nat),
    ensures
        r as int == spec_crossings(
            x0 as int, x1 as int, x2 as int, x3 as int,
            y0 as int, y1 as int, y2 as int, y3 as int,
            d as nat,
        ),
        0 <= r as int <= crossings_bound(d as nat),
    decreases d,
{
    proof {
        lemma_crossings_range(
            x0 as int, x1 as int, x2 as int, x3 as int,
            y0 as int, y1 as int, y2 as int, y3 as int,
            d as nat,
        );
        lemma_cap_val(x0 as int, d as nat);
        lemma_cap_val(x1 as int, d as nat);
        lemma_cap_val(x2 as int, d as nat);
        lemma_cap_val(x3 as int, d as nat);
        lemma_cap_val(y0 as int, d as nat);
        lemma_cap_val(y1 as int, d as nat);
        lemma_cap_val(y2 as int, d as nat);
        lemma_cap_val(y3 as int, d as nat);
    }
    if y0 == 0 && y1 == 0 && y2 == 0 && y3 == 0 {
        0
    } else if (y0 > 0 && y1 > 0 && y2 > 0 && y3 > 0) || (y0 < 0 && y1 < 0 && y2 < 0 && y3 < 0) {
        0
    } else if x0 < 0 && x1 < 0 && x2 < 0 && x3 < 0 {
        0
    } else if x0 > 0 && x1 > 0 && x2 > 0 && x3 > 0 && ((y0 <= y1 && y1 <= y2 && y2 <= y3) || (y0
    >= y1 && y1 >= y2 && y2 >= y3)) && ((y0 < 0 && y3 > 0) || (y0 > 0 && y3 < 0)) {
        1
    } else if d == 0 {
        0
    } else {
        proof {
            lemma_split_cap(x0 as int, x1 as int, x2 as int, x3 as int, d as nat);
            lemma_split_cap(y0 as int, y1 as int, y2 as int, y3 as int, d as nat);
        }
        let lx1: i128 = 4 * (x0 + x1);
        let lx2: i128 = 2 * (x0 + 2 * x1 + x2);
        let mx: i128 = x0 + 3 * x1 + 3 * x2 + x3;
        let rx2: i128 = 2 * (x1 + 2 * x2 + x3);
        let rx1: i128 = 4 * (x2 + x3);
        let ly1: i128 = 4 * (y0 + y1);
        let ly2: i128 = 2 * (y0 + 2 * y1 + y2);
        let my: i128 = y0 + 3 * y1 + 3 * y2 + y3;
        let ry2: i128 = 2 * (y1 + 2 * y2 + y3);
        let ry1: i128 = 4 * (y2 + y3);
        let mid: i32 = if my == 0 && mx > 0 && (ry2 != 0 || (ry1 == 0 && 8 * y3 != 0)) {
            1
        } else {
            0
        };
        let left = count_crossings(8 * x0, lx1, lx2, mx, 8 * y0, ly1, ly2, my, d - 1);
        let right = count_crossings(mx, rx2, rx1, 8 * x3, my, ry2, ry1, 8 * y3, d - 1);
        proof {
            lemma_crossings_bound_27();
            lemma_bound_monotone((d - 1) as nat, 27);
        }
        left + mid + right
    }
}

pub proof fn lemma_bound_monotone(d1: nat, d2: nat)
    requires
        d1 <= d2,
    ensures
        crossings_bound(d1) <= crossings_bound(d2),
    decreases d2,
{
    if d1 < d2 && d2 > 0 {
        lemma_bound_monotone(d1, (d2 - 1) as nat);
        lemma_crossings_bound_pos((d2 - 1) as nat);
    }
}

pub proof fn lemma_crossings_bound_pos(d: nat)
    ensures
        crossings_bound(d) >= 1,
    decreases d,
{
    if d > 0 {
        lemma_crossings_bound_pos((d - 1) as nat);
    }
}

/// Crossings of the whole curve with the positive-x ray over the closed
/// parameter interval: transversal interior crossings, plus a crossing at
/// either curve endpoint when the endpoint lies on the ray (strictly in
/// front of the origin) with odd multiplicity.
pub open spec fn spec_curve_hits(
    x0: int,
    x1: int,
    x2: int,
    x3: int,
    y0: int,
    y1: int,
    y2: int,
    y3: int,
) -> int {
    let at_start: int = if y0 == 0 && x0 > 0 && (y1 != 0 || (y2 == 0 && y3 != 0)) {
        1
    } else {
        0
    };
    let at_end: int = if y3 == 0 && x3 > 0 && (y2 != 0 || (y1 == 0 && y0 != 0)) {
        1
    } else {
        0
    };
    at_start + at_end + spec_crossings(x0, x1, x2, x3, y0, y1, y2, y3, CURVE_DEPTH as nat)
}

/// Counts the ray crossings of a whole cubic curve, endpoints included.
pub fn curve_hits(
    x0: i128,
    x1: i128,
    x2: i128,
    x3: i128,
    y0: i128,
    y1: i128,
    y2: i128,
    y3: i128,
) -> (r: i32)
    requires
        -TOP_COORD_CAP <= x0 <= TOP_COORD_CAP,
        -TOP_COORD_CAP <= x1 <= TOP_COORD_CAP,
        -TOP_COORD_CAP <= x2 <= TOP_COORD_CAP,
        -TOP_COORD_CAP <= x3 <= TOP_COORD_CAP,
        -TOP_COORD_CAP <= y0 <= TOP_COORD_CAP,
        -TOP_COORD_CAP <= y1 <= TOP_COORD_CAP,
        -TOP_COORD_CAP <= y2 <= TOP_COORD_CAP,
        -TOP_COORD_CAP <= y3 <= TOP_COORD_CAP,
    ensures
        r as int == spec_curve_hits(
            x0 as int, x1 as int, x2 as int, x3 as int,
            y0 as int, y1 as int, y2 as int, y3 as int,
        ),
        0 <= r <= 268435457,
{
    proof {
        lemma_top_cap(x0 as int);
        lemma_top_cap(x1 as int);
        lemma_top_cap(x2 as int);
        lemma_top_cap(x3 as int);
        lemma_top_cap(y0 as int);
        lemma_top_cap(y1 as int);
        lemma_top_cap(y2 as int);
        lemma_top_cap(y3 as int);
    }
    let at_start: i32 = if y0 == 0 && x0 > 0 && (y1 != 0 || (y2 == 0 && y3 != 0)) {
        1
    } else {
        0
    };
    let at_end: i32 = if y3 == 0 && x3 > 0 && (y2 != 0 || (y1 == 0 && y0 != 0)) {
        1
    } else {
        0
    };
    let inner = count_crossings(x0, x1, x2, x3, y0, y1, y2, y3, CURVE_DEPTH);
    proof {
        lemma_crossings_bound_27();
    }
    at_start + at_end + inner
}

/// Scaling by a positive factor preserves sign and zeroness.
pub proof fn lemma_scale_signs(k: int, v: int)
    requires
        k >= 1,
    ensures
        k * v > 0 <==> v > 0,
        k * v < 0 <==> v < 0,
        k * v == 0 <==> v == 0,
{
    assert((k * v > 0 <==> v > 0) && (k * v < 0 <==> v < 0) && (k * v == 0 <==> v == 0))
        by (nonlinear_arith)
        requires
            k >= 1,
    ;
}

/// Scaling by a positive factor preserves order.
pub proof fn lemma_scale_le(k: int, a: int, b: int)
    requires
        k >= 1,
    ensures
        k * a <= k * b <==> a <= b,
{
    assert(k * a <= k * b <==> a <= b) by (nonlinear_arith)
        requires
            k >= 1,
    ;
}

/// The crossing counter is scale invariant: multiplying all control
/// values by one positive factor — as translating a curve into a query
/// point's frame with a larger denominator does — changes no count. The
/// counter depends on the curve's geometry alone, not on the scale it is
/// presented at.
pub proof fn lemma_crossings_scale_invariant(
    k: int,
    x0: int,
    x1: int,
    x2: int,
    x3: int,
    y0: int,
    y1: int,
    y2: int,
    y3: int,
    d: nat,
)
    requires
        k >= 1,
    ensures
        spec_crossings(k * x0, k * x1, k * x2, k * x3, k * y0, k * y1, k * y2, k * y3, d)
            == spec_crossings(x0, x1, x2, x3, y0, y1, y2, y3, d),
    decreases d,
{
    lemma_scale_signs(k, x0);
    lemma_scale_signs(k, x1);
    lemma_scale_signs(k, x2);
    lemma_scale_signs(k, x3);
    lemma_scale_signs(k, y0);
    lemma_scale_signs(k, y1);
    lemma_scale_signs(k, y2);
    lemma_scale_signs(k, y3);
    lemma_scale_le(k, y0, y1);
    lemma_scale_le(k, y1, y2);
    lemma_scale_le(k, y2, y3);
    lemma_scale_le(k, y1, y0);
    lemma_scale_le(k, y2, y1);
    lemma_scale_le(k, y3, y2);
    if !(y0 == 0 && y1 == 0 && y2 == 0 && y3 == 0) && !y_one_side(y0, y1, y2, y3) && !(x0 < 0 && x1
        < 0 && x2 < 0 && x3 < 0) && !(x0 > 0 && x1 > 0 && x2 > 0 && x3 > 0 && y_monotone(
        y0,
        y1,
        y2,
        y3,
    ) && ((y0 < 0 && y3 > 0) || (y0 > 0 && y3 < 0))) && d > 0 {
        // The de Casteljau children of the scaled curve are the scaled
        // children of the curve.
        assert(4 * (k * x0 + k * x1) == k * (4 * (x0 + x1)) && 2 * (k * x0 + 2 * (k * x1) + k * x2)
            == k * (2 * (x0 + 2 * x1 + x2)) && k * x0 + 3 * (k * x1) + 3 * (k * x2) + k * x3 == k
            * (x0 + 3 * x1 + 3 * x2 + x3) && 2 * (k * x1 + 2 * (k * x2) + k * x3) == k * (2 * (x1
            + 2 * x2 + x3)) && 4 * (k * x2 + k * x3) == k * (4 * (x2 + x3)) && 8 * (k * x0) == k
            * (8 * x0) && 8 * (k * x3) == k * (8 * x3)) by (nonlinear_arith);
        assert(4 * (k * y0 + k * y1) == k * (4 * (y0 + y1)) && 2 * (k * y0 + 2 * (k * y1) + k * y2)
            == k * (2 * (y0 + 2 * y1 + y2)) && k * y0 + 3 * (k * y1) + 3 * (k * y2) + k * y3 == k
            * (y0 + 3 * y1 + 3 * y2 + y3) && 2 * (k * y1 + 2 * (k * y2) + k * y3) == k * (2 * (y1
            + 2 * y2 + y3)) && 4 * (k * y2 + k * y3) == k * (4 * (y2 + y3)) && 8 * (k * y0) == k
            * (8 * y0) && 8 * (k * y3) == k * (8 * y3)) by (nonlinear_arith);
        lemma_scale_signs(k, y0 + 3 * y1 + 3 * y2 + y3);
        lemma_scale_signs(k, x0 + 3 * x1 + 3 * x2 + x3);
        lemma_scale_signs(k, 2 * (y1 + 2 * y2 + y3));
        lemma_scale_signs(k, 4 * (y2 + y3));
        lemma_scale_signs(k, 8 * y3);
        lemma_crossings_scale_invariant(
            k,
            8 * x0,
            4 * (x0 + x1),
            2 * (x0 + 2 * x1 + x2),
            x0 + 3 * x1 + 3 * x2 + x3,
            8 * y0,
            4 * (y0 + y1),
            2 * (y0 + 2 * y1 + y2),
            y0 + 3 * y1 + 3 * y2 + y3,
            (d - 1) as nat,
        );
        lemma_crossings_scale_invariant(
            k,
            x0 + 3 * x1 + 3 * x2 + x3,
            2 * (x1 + 2 * x2 + x3),
            4 * (x2 + x3),
            8 * x3,
            y0 + 3 * y1 + 3 * y2 + y3,
            2 * (y1 + 2 * y2 + y3),
            4 * (y2 + y3),
            8 * y3,
            (d - 1) as nat,
        );
    }
}

/// The whole-curve counter, endpoint contributions included, is scale
/// invariant too.
pub proof fn lemma_curve_hits_scale_invariant(
    k: int,
    x0: int,
    x1: int,
    x2: int,
    x3: int,
    y0: int,
    y1: int,
    y2: int,
    y3: int,
)
    requires
        k >= 1,
    ensures
        spec_curve_hits(k * x0, k * x1, k * x2, k * x3, k * y0, k * y1, k * y2, k * y3)
            == spec_curve_hits(x0, x1, x2, x3, y0, y1, y2, y3),
{
    lemma_scale_signs(k, x0);
    lemma_scale_signs(k, x3);
    lemma_scale_signs(k, y0);
    lemma_scale_signs(k, y1);
    lemma_scale_signs(k, y2);
    lemma_scale_signs(k, y3);
    lemma_crossings_scale_invariant(k, x0, x1, x2, x3, y0, y1, y2, y3, CURVE_DEPTH as nat);
}

/// Quadratic root consistency: a quadratic curve whose y component rises
/// monotonically across the ray's line, with all its control points
/// strictly in front of the ray origin, has exactly one analytic
/// intersection with the ray, and the counter reports exactly 1. The
/// control points `(ax, ay)`, `(bx, by)`, `(cx, cy)` are translated so
/// that the query point is the origin; the counter sees the quadratic
/// through its exact degree elevation to a cubic.
pub proof fn lemma_quad_single_crossing(ax: int, ay: int, bx: int, by: int, cx: int, cy: int)
    requires
        ax > 0,
        bx > 0,
        cx > 0,
        ay < 0,
        cy > 0,
        ay <= by,
        by <= cy,
    ensures
        spec_curve_hits(
            3 * ax,
            ax + 2 * bx,
            2 * bx + cx,
            3 * cx,
            3 * ay,
            ay + 2 * by,
            2 * by + cy,
            3 * cy,
        ) == 1,
{
    assert(spec_crossings(
        3 * ax,
        ax + 2 * bx,
        2 * bx + cx,
        3 * cx,
        3 * ay,
        ay + 2 * by,
        2 * by + cy,
        3 * cy,
        CURVE_DEPTH as nat,
    ) == 1);
}

/// Cubic symmetry: a cubic whose two control points mirror each other
/// across the ray's line — control y values `(-a, b, b, -a)` with the
/// crossing condition `3 * b > a` — crosses the ray's line exactly twice,
/// and with all control x values strictly in front of the ray origin the
/// counter reports exactly 2.
pub proof fn lemma_mirrored_cubic_double_crossing(
    x0: int,
    x1: int,
    x2: int,
    x3: int,
    a: int,
    b: int,
)
    requires
        x0 > 0,
        x1 > 0,
        x2 > 0,
        x3 > 0,
        1 <= a,
        1 <= b,
        3 * b > a,
    ensures
        spec_curve_hits(x0, x1, x2, x3, -a, b, b, -a) == 2,
{
    let d = CURVE_DEPTH as nat;
    // The left half rises monotonically from below the line to above it,
    // wholly in front of the origin: one crossing.
    assert(spec_crossings(
        8 * x0,
        4 * (x0 + x1),
        2 * (x0 + 2 * x1 + x2),
        x0 + 3 * x1 + 3 * x2 + x3,
        8 * (-a),
        4 * (-a + b),
        2 * (-a + 2 * b + b),
        -a + 3 * b + 3 * b + -a,
        (d - 1) as nat,
    ) == 1);
    // The right half mirrors it downward: one more crossing.
    assert(spec_crossings(
        x0 + 3 * x1 + 3 * x2 + x3,
        2 * (x1 + 2 * x2 + x3),
        4 * (x2 + x3),
        8 * x3,
        -a + 3 * b + 3 * b + -a,
        2 * (b + 2 * b + -a),
        4 * (b + -a),
        8 * (-a),
        (d - 1) as nat,
    ) == 1);
    // The curve's y at the subdivision midpoint is 6b - 2a > 0: no
    // midpoint crossing, and neither endpoint lies on the line.
    assert(spec_crossings(x0, x1, x2, x3, -a, b, b, -a, d) == 2);
}

/// A value within `TOP_COORD_CAP` is capped for the full subdivision depth.
pub proof fn lemma_top_cap(v: int)
    requires
        -TOP_COORD_CAP <= v <= TOP_COORD_CAP,
    ensures
        cap_ok(v, CURVE_DEPTH as nat),
{
    assert(pow8(27) == 0x2_0000_0000_0000_0000_0000) by {
        reveal_with_fuel(pow8, 29);
    }
    assert(-(VALUE_CAP as int) <= v * pow8(27) <= VALUE_CAP as int) by (nonlinear_arith)
        requires
            -(TOP_COORD_CAP as int) <= v <= TOP_COORD_CAP as int,
            pow8(27) == 0x2_0000_0000_0000_0000_0000,
    ;
}

} // verus!
