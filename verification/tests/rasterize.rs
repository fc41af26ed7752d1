use glyph_raster::fill::color_of_coverage;
use glyph_raster::fill::coverage_count;
use glyph_raster::fill::should_draw_point;
use glyph_raster::metrics::Metrics;
use glyph_raster::metrics::get_subpixel;
use glyph_raster::outline::Builder;
use glyph_raster::segment::Segment;
use glyph_raster::units::font_to_pixel_units;
use glyph_raster::units::get_glyph_size;
use glyph_raster::units::get_ratio;
use glyph_raster::units::pixels_to_font_units;
use glyph_raster::units::to_display_y;

fn square(side: i64) -> Vec<Segment> {
    let mut b = Builder::new();
    b.move_to(0, 0);
    b.line_to(0, side);
    b.line_to(side, side);
    b.line_to(side, 0);
    b.line_to(0, 0);
    b.close();
    b.segments
}

#[test]
fn ratio_exact_value() {
    // point_size 32 at 144 dpi over 2048 units per em: exactly 0.03125.
    let r = get_ratio(2048, 32, 144);
    assert_eq!(r, (32 * 144, 72 * 2048));
    assert_eq!(r.0 * 32, r.1);
    assert_eq!(r.0 as f32 / r.1 as f32, 0.03125);
}

#[test]
fn conversion_round_trip_is_exact() {
    let values: [(i64, i64); 5] = [(0, 1), (1, 1), (-700, 1), (355, 113), (99991, 64)];
    for upm in [1000i64, 2048] {
        for ps in [12i64, 32, 192] {
            for res in [72i64, 144] {
                let (rn, rd) = get_ratio(upm, ps, res);
                for (vn, vd) in values {
                    let px = font_to_pixel_units(vn, vn, vd, rn, rd);
                    let back = pixels_to_font_units(px.0, px.1, px.2, rn, rd);
                    // The round trip is exact as rationals.
                    assert_eq!(back.0 as i128 * vd as i128, vn as i128 * back.2 as i128);
                    let v = vn as f64 / vd as f64;
                    let b = back.0 as f64 / back.2 as f64;
                    assert!((b - v).abs() <= 1e-3 * v.abs().max(1.0));
                }
            }
        }
    }
}

#[test]
fn unit_square_fill_scenario() {
    // Glyph: a 1000-unit square, units_per_em 1000, 32 pt at 144 dpi, so
    // one font unit is 0.064 pixels. The pixel point (32, 32) maps to the
    // font-unit point (500, 500): filled. The pixel point (96, 32) maps
    // to (1500, 500): not filled.
    let segs = square(1000);
    assert!(should_draw_point(32, 32, 1, 0, 0, 1000, 32, 144, &segs));
    assert!(!should_draw_point(96, 32, 1, 0, 0, 1000, 32, 144, &segs));
}

#[test]
fn fill_respects_bounding_box_offset() {
    // The same square, but stored at an offset bounding box: the query is
    // shifted by (x_min, y_min) before classification.
    let mut b = Builder::new();
    b.move_to(2000, 3000);
    b.line_to(2000, 4000);
    b.line_to(3000, 4000);
    b.line_to(3000, 3000);
    b.line_to(2000, 3000);
    b.close();
    assert!(should_draw_point(32, 32, 1, 2000, 3000, 1000, 32, 144, &b.segments));
    assert!(!should_draw_point(32, 32, 1, 0, 0, 1000, 32, 144, &b.segments));
}

#[test]
fn fill_is_independent_of_query_representation() {
    // The same device-pixel point written over different denominators
    // classifies identically.
    let segs = square(1000);
    let reference = should_draw_point(32, 32, 1, 0, 0, 1000, 32, 144, &segs);
    for k in 2i64..=32 {
        assert_eq!(should_draw_point(32 * k, 32 * k, k, 0, 0, 1000, 32, 144, &segs), reference);
    }
}

#[test]
fn intersect_is_independent_of_query_representation() {
    let mut b = Builder::new();
    b.move_to(0, -100);
    b.curve_to(100, 300, 200, 300, 300, -100);
    let s = b.segments[1];
    let reference = s.intersect(-50, 0, 1, 1, 0);
    assert_eq!(reference, 2);
    for k in 2i64..=16 {
        assert_eq!(s.intersect(-50 * k, 0, k, 1, 0), reference);
    }
}

#[test]
fn glyph_size_rounds_up() {
    let (rn, rd) = get_ratio(1000, 32, 144);
    // 1000 font units are exactly 64 pixels; 1001 need a 65th pixel.
    assert_eq!(get_glyph_size(1000, 1000, rn, rd), (64, 64));
    assert_eq!(get_glyph_size(1001, 500, rn, rd), (65, 32));
    assert_eq!(get_glyph_size(0, 0, rn, rd), (0, 0));
}

#[test]
fn coverage_on_straddling_pixel() {
    // A 990-unit square: its right edge falls at pixel 63.36, so pixel
    // (63, 31) straddles the filled/unfilled boundary. The true covered
    // fraction of that pixel is 0.36.
    let segs = square(990);
    let c1 = coverage_count(63, 31, 1, 0, 0, 1000, 32, 144, &segs);
    let c3 = coverage_count(63, 31, 3, 0, 0, 1000, 32, 144, &segs);
    // Coverage always lies in [0, 1].
    assert!(c3 <= 9 && c1 <= 1);
    // The pixel straddles the boundary: 3x3 sampling sees that.
    assert_eq!(c3, 3);
    assert_eq!(c1, 0);
    // 3x3 coverage approximates the true area better than single
    // sampling.
    let truth = 0.36f64;
    let err3 = (c3 as f64 / 9.0 - truth).abs();
    let err1 = (c1 as f64 - truth).abs();
    assert!(err3 < err1);
}

#[test]
fn coverage_of_interior_and_exterior_pixels() {
    let segs = square(1000);
    // A pixel wholly inside the square is fully covered; one wholly
    // outside is not covered at all.
    assert_eq!(coverage_count(31, 31, 2, 0, 0, 1000, 32, 144, &segs), 4);
    assert_eq!(coverage_count(31, 31, 3, 0, 0, 1000, 32, 144, &segs), 9);
    assert_eq!(coverage_count(100, 31, 3, 0, 0, 1000, 32, 144, &segs), 0);
}

#[test]
fn color_mapping_values() {
    assert_eq!(color_of_coverage(0, 1), 255);
    assert_eq!(color_of_coverage(1, 1), 0);
    assert_eq!(color_of_coverage(0, 2), 255);
    assert_eq!(color_of_coverage(1, 2), 191);
    assert_eq!(color_of_coverage(4, 2), 0);
    assert_eq!(color_of_coverage(1, 3), 226);
    assert_eq!(color_of_coverage(9, 3), 0);
}

#[test]
fn subpixel_buckets() {
    // Offset 0.3 in a 2x2 grid falls in bucket 0, whose center is 1/4.
    assert_eq!(get_subpixel(3, 3, 10, 2), (1, 1, 4));
    // In a 4x4 grid it falls in bucket 1, centered at 3/8.
    assert_eq!(get_subpixel(3, 3, 10, 4), (3, 3, 8));
    // Offsets near 1 land in the last bucket.
    assert_eq!(get_subpixel(9, 1, 10, 3), (5, 1, 6));
}

#[test]
fn metrics_record_agreements() {
    let mut m = Metrics::new();
    m.record_trial(true, true, false, true, true);
    m.record_trial(false, true, false, true, false);
    m.record_trial(true, true, true, true, true);
    assert_eq!(m.samples, 3);
    assert_eq!(m.none, 2);
    assert_eq!(m.two_by_two, 2);
    assert_eq!(m.three_by_three, 2);
    assert_eq!(m.four_by_four, 3);
    // Every agreement ratio lies in [0, 1].
    assert!(m.none <= m.samples && m.four_by_four <= m.samples);
}

#[test]
fn display_flip() {
    assert_eq!(to_display_y(800, 100), 700);
    assert_eq!(to_display_y(800, 0), 800);
}
