//! Point classification and pixel coverage.
//!
//! A device-pixel query point is converted into font design units (the
//! exact inverse of the scaling ratio), offset by the glyph bounding box
//! minimum, and classified by casting a horizontal ray through every
//! segment of the outline: the point is filled exactly when the total
//! intersection count is odd (the even-odd rule, tolerant of the signed
//! per-line contributions).

use vstd::prelude::*;

use crate::segment::DEN_BOUND;
use crate::segment::NUM_BOUND;
use crate::segment::Segment;
use crate::segment::query_in_bounds;
use crate::segment::spec_intersect;
use crate::outline::all_in_bounds;

verus! {

/// Sum of the signed ray intersection counts of all segments, for the
/// query point `(qx / den, qy / den)` in font design units.
pub open spec fn sum_intersections(segs: Seq<Segment>, qx: int, qy: int, den: int) -> int
    decreases segs.len(),
{
    if segs.len() == 0 {
        0
    } else {
        sum_intersections(segs.drop_last(), qx, qy, den) + spec_intersect(segs.last(), qx, qy, den)
    }
}

/// The even-odd fill decision for a device-pixel point
/// `(x_num / den, y_num / den)`: the point is converted into font design
/// units by the inverse ratio `72 * units_per_em / (point_size *
/// resolution)`, offset by the bounding box minimum `(x_min, y_min)`, and
/// filled exactly when the outline's total intersection count is odd.
pub open spec fn spec_should_draw(
    segs: Seq<Segment>,
    x_num: int,
    y_num: int,
    den: int,
    x_min: int,
    y_min: int,
    units_per_em: int,
    point_size: int,
    resolution: int,
) -> bool {
    let qden = den * (point_size * resolution);
    let qx = x_num * (72 * units_per_em) + x_min * qden;
    let qy = y_num * (72 * units_per_em) + y_min * qden;
    sum_intersections(segs, qx, qy, qden) % 2 != 0
}

/// Decides whether the device pixel point `(x_num / den, y_num / den)`
/// lies inside the glyph outline, by the even-odd rule.
pub fn should_draw_point(
    x_num: i64,
    y_num: i64,
    den: i64,
    x_min: i64,
    y_min: i64,
    units_per_em: i64,
    point_size: i64,
    resolution: i64,
    segments: &Vec<Segment>,
) -> (r: bool)
    requires
        1 <= den <= 32,
        -2048 * den <= x_num <= 2048 * den,
        -2048 * den <= y_num <= 2048 * den,
        -32768 <= x_min <= 32768,
        -32768 <= y_min <= 32768,
        1 <= units_per_em <= 4096,
        1 <= point_size,
        1 <= resolution,
        point_size * resolution <= 32768,
        all_in_bounds(segments@),
        segments@.len() <= 100000,
    ensures
        r == spec_should_draw(
            segments@,
            x_num as int, y_num as int, den as int,
            x_min as int, y_min as int,
            units_per_em as int, point_size as int, resolution as int,
        ),
{
    proof {
        assert(1 <= point_size * resolution) by (nonlinear_arith)
            requires
                1 <= point_size,
                1 <= resolution,
        ;
    }
    let rn: i64 = point_size * resolution;
    let rd: i64 = 72 * units_per_em;
    proof {
        assert(1 <= den * rn <= DEN_BOUND) by (nonlinear_arith)
            requires
                1 <= den <= 32,
                1 <= rn <= 32768,
                DEN_BOUND == 1048576,
        ;
    }
    let qden: i64 = den * rn;
    proof {
        assert(-0x5_0000_0000_0000 <= x_num * rd <= 0x5_0000_0000_0000 && -0x5_0000_0000_0000
            <= y_num * rd <= 0x5_0000_0000_0000 && -0x8_0000_0000_0000 <= x_min * qden
            <= 0x8_0000_0000_0000 && -0x8_0000_0000_0000 <= y_min * qden <= 0x8_0000_0000_0000
            && -NUM_BOUND <= x_num * rd + x_min * qden <= NUM_BOUND && -NUM_BOUND <= y_num * rd
            + y_min * qden <= NUM_BOUND) by (nonlinear_arith)
            requires
                1 <= den <= 32,
                -2048 * den <= x_num <= 2048 * den,
                -2048 * den <= y_num <= 2048 * den,
                -32768 <= x_min <= 32768,
                -32768 <= y_min <= 32768,
                72 <= rd <= 294912,
                1 <= qden <= 1048576,
                NUM_BOUND == 68719476736,
        ;
    }
    let qx: i64 = x_num * rd + x_min * qden;
    let qy: i64 = y_num * rd + y_min * qden;
    let ghost gqx: int = qx as int;
    let ghost gqy: int = qy as int;
    let ghost gden: int = qden as int;
    let mut i: usize = 0;
    // Accumulates the intersection sum plus 2 per segment, which keeps the
    // value nonnegative (each contribution is at least -1) without
    // changing its parity.
    let mut acc: i64 = 0;
    while i < segments.len()
        invariant
            0 <= i <= segments@.len(),
            segments@.len() <= 100000,
            all_in_bounds(segments@),
            query_in_bounds(gqx, gqy, gden),
            gqx == qx as int,
            gqy == qy as int,
            gden == qden as int,
            acc == sum_intersections(segments@.take(i as int), gqx, gqy, gden) + 2 * (i as int),
            0 <= acc <= (i as int) * 268435459,
        decreases segments@.len() - i,
    {
        let c = segments[i].intersect(qx, qy, qden, 1, 0);
        proof {
            assert(segments@.take(i as int + 1).drop_last() =~= segments@.take(i as int));
            assert(segments@.take(i as int + 1).last() == segments@[i as int]);
        }
        acc = acc + c as i64 + 2;
        i = i + 1;
    }
    proof {
        assert(segments@.take(segments@.len() as int) =~= segments@);
        let s = sum_intersections(segments@, gqx, gqy, gden);
        vstd::arithmetic::div_mod::lemma_mod_multiples_vanish(segments@.len() as int, s, 2);
        vstd::arithmetic::div_mod::lemma_mod_bound(s, 2);
    }
    acc % 2 == 1
}

/// The outline's intersection sum depends only on the query point's
/// value, not on the fraction chosen to represent it.
pub proof fn lemma_sum_representation_independent(
    segs: Seq<Segment>,
    qx: int,
    qy: int,
    den: int,
    k: int,
)
    requires
        k >= 1,
        den >= 1,
    ensures
        sum_intersections(segs, k * qx, k * qy, k * den) == sum_intersections(segs, qx, qy, den),
    decreases segs.len(),
{
    if segs.len() > 0 {
        lemma_sum_representation_independent(segs.drop_last(), qx, qy, den, k);
        crate::segment::lemma_intersect_representation_independent(segs.last(), qx, qy, den, k);
    }
}

/// The fill decision depends only on the value of the device-pixel query
/// point: writing the same point over a denominator scaled by any
/// positive factor classifies identically.
pub proof fn lemma_fill_representation_independent(
    segs: Seq<Segment>,
    x_num: int,
    y_num: int,
    den: int,
    x_min: int,
    y_min: int,
    units_per_em: int,
    point_size: int,
    resolution: int,
    k: int,
)
    requires
        k >= 1,
        den >= 1,
        point_size >= 1,
        resolution >= 1,
    ensures
        spec_should_draw(
            segs,
            k * x_num,
            k * y_num,
            k * den,
            x_min,
            y_min,
            units_per_em,
            point_size,
            resolution,
        ) == spec_should_draw(
            segs,
            x_num,
            y_num,
            den,
            x_min,
            y_min,
            units_per_em,
            point_size,
            resolution,
        ),
{
    let rr = point_size * resolution;
    let rd = 72 * units_per_em;
    let qden = den * rr;
    let qx = x_num * rd + x_min * qden;
    let qy = y_num * rd + y_min * qden;
    assert((k * den) * rr == k * qden && (k * x_num) * rd == k * (x_num * rd) && (k * y_num) * rd
        == k * (y_num * rd) && x_min * (k * qden) == k * (x_min * qden) && y_min * (k * qden) == k
        * (y_min * qden)) by (nonlinear_arith)
        requires
            qden == den * rr,
    ;
    assert(k * (x_num * rd) + k * (x_min * qden) == k * (x_num * rd + x_min * qden) && k * (y_num
        * rd) + k * (y_min * qden) == k * (y_num * rd + y_min * qden)) by (nonlinear_arith);
    assert((k * x_num) * rd + x_min * ((k * den) * rr) == k * qx && (k * y_num) * rd + y_min * ((k
        * den) * rr) == k * qy);
    assert(qden >= 1) by (nonlinear_arith)
        requires
            qden == den * (point_size * resolution),
            den >= 1,
            point_size >= 1,
            resolution >= 1,
    ;
    lemma_sum_representation_independent(segs, qx, qy, qden, k);
}

/// Number of filled sample points among the first `k` cells of the `n` by
/// `n` supersampling grid of the pixel `(px, py)`: cell `k` samples the
/// point `(px + (2*(k/n) + 1) / (2n), py + (2*(k%n) + 1) / (2n))`.
pub open spec fn spec_coverage(
    segs: Seq<Segment>,
    px: int,
    py: int,
    n: int,
    k: int,
    x_min: int,
    y_min: int,
    units_per_em: int,
    point_size: int,
    resolution: int,
) -> int
    decreases k,
{
    if k <= 0 {
        0
    } else {
        spec_coverage(segs, px, py, n, k - 1, x_min, y_min, units_per_em, point_size, resolution)
            + if spec_should_draw(
            segs,
            px * (2 * n) + 2 * ((k - 1) / n) + 1,
            py * (2 * n) + 2 * ((k - 1) % n) + 1,
            2 * n,
            x_min,
            y_min,
            units_per_em,
            point_size,
            resolution,
        ) {
            1 as int
        } else {
            0 as int
        }
    }
}

/// Classifies the `n * n` evenly spaced sub-pixel sample points of the
/// device pixel `(px, py)` and returns how many are filled. With `n == 1`
/// this is the default sampling of the pixel center; the coverage
/// fraction is the returned count over `n * n`, so it always lies in
/// `[0, 1]`.
pub fn coverage_count(
    px: i64,
    py: i64,
    n: i64,
    x_min: i64,
    y_min: i64,
    units_per_em: i64,
    point_size: i64,
    resolution: i64,
    segments: &Vec<Segment>,
) -> (r: u32)
    requires
        1 <= n <= 4,
        -2047 <= px <= 2047,
        -2047 <= py <= 2047,
        -32768 <= x_min <= 32768,
        -32768 <= y_min <= 32768,
        1 <= units_per_em <= 4096,
        1 <= point_size,
        1 <= resolution,
        point_size * resolution <= 32768,
        all_in_bounds(segments@),
        segments@.len() <= 100000,
    ensures
        r as int == spec_coverage(
            segments@,
            px as int, py as int, n as int, (n * n) as int,
            x_min as int, y_min as int,
            units_per_em as int, point_size as int, resolution as int,
        ),
        r as int <= n * n,
{
    proof {
        assert(1 <= n * n <= 16) by (nonlinear_arith)
            requires
                1 <= n <= 4,
        ;
    }
    let total: i64 = n * n;
    let mut k: i64 = 0;
    let mut count: u32 = 0;
    while k < total
        invariant
            1 <= n <= 4,
            total == n * n,
            total <= 16,
            0 <= k <= total,
            -2047 <= px <= 2047,
            -2047 <= py <= 2047,
            -32768 <= x_min <= 32768,
            -32768 <= y_min <= 32768,
            1 <= units_per_em <= 4096,
            1 <= point_size,
            1 <= resolution,
            point_size * resolution <= 32768,
            all_in_bounds(segments@),
            segments@.len() <= 100000,
            count as int == spec_coverage(
                segments@,
                px as int, py as int, n as int, k as int,
                x_min as int, y_min as int,
                units_per_em as int, point_size as int, resolution as int,
            ),
            count as int <= k,
        decreases total - k,
    {
        let i: i64 = k / n;
        let j: i64 = k % n;
        proof {
            vstd::arithmetic::div_mod::lemma_fundamental_div_mod(k as int, n as int);
            vstd::arithmetic::div_mod::lemma_mod_bound(k as int, n as int);
            assert(0 <= i && 0 <= j < n && i <= n - 1) by (nonlinear_arith)
                requires
                    i == k as int / n as int,
                    j == k as int % n as int,
                    k as int == n as int * (k as int / n as int) + k as int % n as int,
                    0 <= (k as int % n as int),
                    (k as int % n as int) < n as int,
                    0 <= k < n * n,
                    1 <= n <= 4,
            ;
        }
        proof {
            assert(-2047 * 8 <= px as int * (2 * n as int) <= 2047 * 8 && -2047 * 8 <= py as int
                * (2 * n as int) <= 2047 * 8 && -2048 * (2 * n as int) <= px as int * (2
                * n as int) + 2 * i as int + 1 <= 2048 * (2 * n as int) && -2048 * (2 * n as int)
                <= py as int * (2 * n as int) + 2 * j as int + 1 <= 2048 * (2 * n as int))
                by (nonlinear_arith)
                requires
                    -2047 <= px as int <= 2047,
                    -2047 <= py as int <= 2047,
                    1 <= n as int <= 4,
                    0 <= i as int <= n as int - 1,
                    0 <= j as int <= n as int - 1,
            ;
        }
        let sx: i64 = px * (2 * n) + 2 * i + 1;
        let sy: i64 = py * (2 * n) + 2 * j + 1;
        let filled = should_draw_point(
            sx,
            sy,
            2 * n,
            x_min,
            y_min,
            units_per_em,
            point_size,
            resolution,
            segments,
        );
        if filled {
            count = count + 1;
        }
        k = k + 1;
    }
    count
}

/// The grayscale value a pixel is drawn with for a given coverage count:
/// `255 * (1 - coverage)`, so full coverage is black (0) and no coverage
/// is white (255).
pub fn color_of_coverage(count: u32, n: u32) -> (r: u8)
    requires
        1 <= n <= 4,
        count as int <= n * n,
    ensures
        r as int == 255 * ((n * n) - count as int) / ((n * n) as int),
        count == 0 ==> r == 255,
        count as int == n * n ==> r == 0,
{
    proof {
        assert(1 <= n * n <= 16) by (nonlinear_arith)
            requires
                1 <= n <= 4,
        ;
    }
    let total: u32 = n * n;
    proof {
        let t = (n * n) as int;
        let rest = t - count as int;
        vstd::arithmetic::div_mod::lemma_div_is_ordered(255 * rest, 255 * t, t);
        vstd::arithmetic::div_mod::lemma_div_multiples_vanish(255, t);
        assert(t * 255 == 255 * t) by (nonlinear_arith);
        if count == 0 {
            vstd::arithmetic::div_mod::lemma_div_multiples_vanish(255, t);
        }
        if rest >= 0 {
            vstd::arithmetic::div_mod::lemma_div_is_ordered(0, 255 * rest, t);
            vstd::arithmetic::div_mod::lemma_basic_div(0, t);
        }
    }
    let v: u32 = 255 * (total - count) / total;
    v as u8
}

} // verus!
