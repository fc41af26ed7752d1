use glyph_raster::outline::Builder;
use glyph_raster::segment::Segment;
use glyph_raster::segment::SegmentType;

fn quad(sx: i64, sy: i64, cx: i64, cy: i64, ex: i64, ey: i64) -> Segment {
    Segment {
        segment_type: SegmentType::Quad,
        x_start: sx,
        y_start: sy,
        x1: cx,
        y1: cy,
        x2: 0,
        y2: 0,
        x_end: ex,
        y_end: ey,
    }
}

fn cubic(sx: i64, sy: i64, c1x: i64, c1y: i64, c2x: i64, c2y: i64, ex: i64, ey: i64) -> Segment {
    Segment {
        segment_type: SegmentType::Cubic,
        x_start: sx,
        y_start: sy,
        x1: c1x,
        y1: c1y,
        x2: c2x,
        y2: c2y,
        x_end: ex,
        y_end: ey,
    }
}

fn outline_sum(segments: &[Segment], qx: i64, qy: i64) -> i32 {
    segments.iter().map(|s| s.intersect(qx, qy, 1, 1, 0)).sum()
}

fn polygon(points: &[(i64, i64)]) -> Vec<Segment> {
    let mut b = Builder::new();
    b.move_to(points[0].0, points[0].1);
    for p in &points[1..] {
        b.line_to(p.0, p.1);
    }
    b.line_to(points[0].0, points[0].1);
    b.close();
    b.segments
}

#[test]
fn line_segment_hit_is_signed() {
    let up = Segment {
        segment_type: SegmentType::Line,
        x_start: 100,
        y_start: -50,
        x1: 0,
        y1: 0,
        x2: 0,
        y2: 0,
        x_end: 100,
        y_end: 50,
    };
    // Query left of an upward segment: one hit, side -1.
    assert_eq!(up.intersect(0, 0, 1, 1, 0), -1);
    // Query right of the segment: the ray points away, no hit.
    assert_eq!(up.intersect(200, 0, 1, 1, 0), 0);
}

#[test]
fn line_segment_parallel_is_zero() {
    let flat = Segment {
        segment_type: SegmentType::Line,
        x_start: 0,
        y_start: 10,
        x1: 0,
        y1: 0,
        x2: 0,
        y2: 0,
        x_end: 100,
        y_end: 10,
    };
    // Parallel ray, even collinear with the segment: no contribution.
    assert_eq!(flat.intersect(-50, 0, 1, 1, 0), 0);
    assert_eq!(flat.intersect(-50, 10, 1, 1, 0), 0);
}

#[test]
fn markers_contribute_nothing() {
    let origin = Segment {
        segment_type: SegmentType::Origin,
        x_start: 5,
        y_start: 5,
        x1: 0,
        y1: 0,
        x2: 0,
        y2: 0,
        x_end: 5,
        y_end: 5,
    };
    let close = Segment {
        segment_type: SegmentType::Close,
        x_start: 0,
        y_start: 0,
        x1: 0,
        y1: 0,
        x2: 0,
        y2: 0,
        x_end: 0,
        y_end: 0,
    };
    assert_eq!(origin.intersect(0, 5, 1, 1, 0), 0);
    assert_eq!(close.intersect(0, 0, 1, 1, 0), 0);
}

#[test]
fn quad_crossing_once_reports_one() {
    // A symmetric arc climbing from y=-100 to y=100: it meets the ray's
    // line exactly once (at the parameter midpoint), in front of the
    // query point.
    let s = quad(0, -100, 100, 0, 200, 100);
    assert_eq!(s.intersect(-50, 0, 1, 1, 0), 1);
}

#[test]
fn quad_behind_query_reports_zero() {
    let s = quad(0, -100, 100, 0, 200, 100);
    // The same arc, with the query point to the right of it: the crossing
    // is behind the ray origin.
    assert_eq!(s.intersect(500, 0, 1, 1, 0), 0);
}

#[test]
fn quad_tangential_contact_reports_zero() {
    // A parabola dipping to exactly y=0 at its vertex: a tangential
    // contact is degenerate geometry and contributes nothing.
    let s = quad(0, 100, 100, -100, 200, 100);
    assert_eq!(s.intersect(-50, 0, 1, 1, 0), 0);
}

#[test]
fn quad_same_side_reports_zero() {
    // All three control points above the ray's line.
    let s = quad(0, 10, 100, 200, 200, 10);
    assert_eq!(s.intersect(-50, 0, 1, 1, 0), 0);
}

#[test]
fn cubic_mirrored_controls_report_two() {
    // A cubic with mirrored control points rises across the ray's line
    // and comes back: exactly two transversal crossings, both in front
    // of the query point.
    let s = cubic(0, -100, 100, 300, 200, 300, 300, -100);
    assert_eq!(s.intersect(-50, 0, 1, 1, 0), 2);
}

#[test]
fn cubic_single_crossing_reports_one() {
    let s = cubic(0, -300, 100, -100, 200, 100, 300, 300);
    assert_eq!(s.intersect(-50, 0, 1, 1, 0), 1);
}

#[test]
fn quad_starting_on_ray_counts_once() {
    // The curve's start point lies on the ray, in front of the query
    // point, and the curve leaves the ray's line transversally: the
    // endpoint contact counts as one crossing.
    let s = quad(100, 0, 200, 100, 300, 300);
    assert_eq!(s.intersect(0, 0, 1, 1, 0), 1);
}

#[test]
fn cubic_behind_query_reports_zero() {
    let s = cubic(0, -100, 100, 300, 200, 300, 300, -100);
    assert_eq!(s.intersect(1000, 0, 1, 1, 0), 0);
}

#[test]
fn triangle_parity_inside_odd_outside_even() {
    let tri = polygon(&[(0, 0), (400, 0), (200, 300)]);
    assert_eq!(outline_sum(&tri, 200, 100).rem_euclid(2), 1);
    assert_eq!(outline_sum(&tri, 500, 100).rem_euclid(2), 0);
    assert_eq!(outline_sum(&tri, -50, 100).rem_euclid(2), 0);
    assert_eq!(outline_sum(&tri, 200, 400).rem_euclid(2), 0);
}

#[test]
fn square_parity_inside_odd_outside_even() {
    let sq = polygon(&[(0, 0), (0, 1000), (1000, 1000), (1000, 0)]);
    assert_eq!(outline_sum(&sq, 500, 500).rem_euclid(2), 1);
    assert_eq!(outline_sum(&sq, 1500, 500).rem_euclid(2), 0);
    assert_eq!(outline_sum(&sq, -500, 500).rem_euclid(2), 0);
    assert_eq!(outline_sum(&sq, 500, 1500).rem_euclid(2), 0);
    assert_eq!(outline_sum(&sq, 500, -500).rem_euclid(2), 0);
}

#[test]
fn concave_quad_parity_inside_odd_outside_even() {
    // A quadrilateral with a reflex notch at (200, 100).
    let q = polygon(&[(0, 0), (400, 0), (400, 400), (200, 100)]);
    // Inside, near the bottom-right.
    assert_eq!(outline_sum(&q, 300, 80).rem_euclid(2), 1);
    // In the notch above the reflex vertex: outside.
    assert_eq!(outline_sum(&q, 100, 90).rem_euclid(2), 0);
    // Far outside.
    assert_eq!(outline_sum(&q, 600, 200).rem_euclid(2), 0);
}

#[test]
fn builder_chains_segments() {
    let mut b = Builder::new();
    b.move_to(10, 20);
    b.line_to(30, 40);
    b.quad_to(50, 60, 70, 80);
    b.curve_to(1, 2, 3, 4, 90, 100);
    b.close();
    let segs = &b.segments;
    assert_eq!(segs.len(), 5);
    assert!(matches!(segs[0].segment_type, SegmentType::Origin));
    assert_eq!((segs[0].x_start, segs[0].y_start), (10, 20));
    assert_eq!((segs[0].x_end, segs[0].y_end), (10, 20));
    assert!(matches!(segs[1].segment_type, SegmentType::Line));
    assert_eq!((segs[1].x_start, segs[1].y_start), (10, 20));
    assert_eq!((segs[1].x_end, segs[1].y_end), (30, 40));
    assert!(matches!(segs[2].segment_type, SegmentType::Quad));
    assert_eq!((segs[2].x_start, segs[2].y_start), (30, 40));
    assert_eq!((segs[2].x1, segs[2].y1), (50, 60));
    assert_eq!((segs[2].x_end, segs[2].y_end), (70, 80));
    assert!(matches!(segs[3].segment_type, SegmentType::Cubic));
    assert_eq!((segs[3].x_start, segs[3].y_start), (70, 80));
    assert_eq!((segs[3].x2, segs[3].y2), (3, 4));
    assert_eq!((segs[3].x_end, segs[3].y_end), (90, 100));
    assert!(matches!(segs[4].segment_type, SegmentType::Close));
}
