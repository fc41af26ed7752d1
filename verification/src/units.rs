//! Conversion between font design units and device pixel units.
//!
//! The scaling ratio is `point_size * resolution / (72 * units_per_em)`,
//! kept as an exact fraction (numerator, denominator), and values are
//! rationals `(numerator, denominator)` as well, so converting to pixels
//! and back returns exactly the starting value.

use vstd::prelude::*;

verus! {

/// Points per inch, the fixed typographic scale factor.
pub const POINTS_PER_INCH: i64 = 72;

/// Two rationals `a_num / a_den` and `b_num / b_den` are equal.
pub open spec fn rat_eq(a_num: int, a_den: int, b_num: int, b_den: int) -> bool {
    a_num * b_den == b_num * a_den
}

/// The font-unit-to-pixel scaling ratio as an exact fraction:
/// `point_size * resolution / (72 * units_per_em)`.
pub fn get_ratio(units_per_em: i64, point_size: i64, resolution: i64) -> (r: (i64, i64))
    requires
        1 <= units_per_em <= 4096,
        1 <= point_size,
        1 <= resolution,
        point_size * resolution <= 32768,
    ensures
        r.0 == point_size * resolution,
        r.1 == POINTS_PER_INCH * units_per_em,
        1 <= r.0 <= 32768,
        72 <= r.1 <= 294912,
{
    proof {
        assert(1 <= point_size * resolution) by (nonlinear_arith)
            requires
                1 <= point_size,
                1 <= resolution,
        ;
    }
    (point_size * resolution, POINTS_PER_INCH * units_per_em)
}

/// Converts a point from pixel units to font design units: both
/// coordinates are divided by the ratio `ratio_num / ratio_den`, exactly,
/// by returning the numerators over the common denominator
/// `den * ratio_num`.
pub fn pixels_to_font_units(
    x_num: i64,
    y_num: i64,
    den: i64,
    ratio_num: i64,
    ratio_den: i64,
) -> (r: (i64, i64, i64))
    requires
        -0x4000_0000 <= x_num <= 0x4000_0000,
        -0x4000_0000 <= y_num <= 0x4000_0000,
        1 <= den <= 0x4000_0000,
        1 <= ratio_num <= 0x4000_0000,
        1 <= ratio_den <= 0x4000_0000,
    ensures
        r.0 == x_num * ratio_den,
        r.1 == y_num * ratio_den,
        r.2 == den * ratio_num,
        1 <= r.2,
        rat_eq(r.0 as int, r.2 as int, x_num as int * ratio_den, den as int * ratio_num),
{
    proof {
        lemma_small_products(x_num as int, y_num as int, den as int, ratio_num as int,
            ratio_den as int);
    }
    (x_num * ratio_den, y_num * ratio_den, den * ratio_num)
}

/// Converts a point from font design units to pixel units: both
/// coordinates are multiplied by the ratio `ratio_num / ratio_den`.
pub fn font_to_pixel_units(
    x_num: i64,
    y_num: i64,
    den: i64,
    ratio_num: i64,
    ratio_den: i64,
) -> (r: (i64, i64, i64))
    requires
        -0x4000_0000 <= x_num <= 0x4000_0000,
        -0x4000_0000 <= y_num <= 0x4000_0000,
        1 <= den <= 0x4000_0000,
        1 <= ratio_num <= 0x4000_0000,
        1 <= ratio_den <= 0x4000_0000,
    ensures
        r.0 == x_num * ratio_num,
        r.1 == y_num * ratio_num,
        r.2 == den * ratio_den,
        1 <= r.2,
{
    proof {
        lemma_small_products(x_num as int, y_num as int, den as int, ratio_den as int,
            ratio_num as int);
    }
    (x_num * ratio_num, y_num * ratio_num, den * ratio_den)
}

proof fn lemma_small_products(x: int, y: int, d: int, a: int, b: int)
    requires
        -0x4000_0000 <= x <= 0x4000_0000,
        -0x4000_0000 <= y <= 0x4000_0000,
        1 <= d <= 0x4000_0000,
        1 <= a <= 0x4000_0000,
        1 <= b <= 0x4000_0000,
    ensures
        -0x1000_0000_0000_0000 <= x * b <= 0x1000_0000_0000_0000,
        -0x1000_0000_0000_0000 <= y * b <= 0x1000_0000_0000_0000,
        1 <= d * a <= 0x1000_0000_0000_0000,
{
    assert(-0x1000_0000_0000_0000 <= x * b <= 0x1000_0000_0000_0000 && -0x1000_0000_0000_0000 <= y
        * b <= 0x1000_0000_0000_0000 && 1 <= d * a <= 0x1000_0000_0000_0000) by (nonlinear_arith)
        requires
            -0x4000_0000 <= x <= 0x4000_0000,
            -0x4000_0000 <= y <= 0x4000_0000,
            1 <= d <= 0x4000_0000,
            1 <= a <= 0x4000_0000,
            1 <= b <= 0x4000_0000,
    ;
}

/// Converting a value to pixel units and back to font units (or the other
/// way round) is exact: the result equals the starting rational. This is
/// the conversion round trip, with zero error.
pub proof fn lemma_conversion_round_trip(v_num: int, v_den: int, ratio_num: int, ratio_den: int)
    requires
        1 <= v_den,
        1 <= ratio_num,
        1 <= ratio_den,
    ensures
        rat_eq(v_num * ratio_num * ratio_den, v_den * ratio_den * ratio_num, v_num, v_den),
        rat_eq(v_num * ratio_den * ratio_num, v_den * ratio_num * ratio_den, v_num, v_den),
{
    assert(v_num * ratio_num * ratio_den * v_den == v_num * (v_den * ratio_den * ratio_num)
        && v_num * ratio_den * ratio_num * v_den == v_num * (v_den * ratio_num * ratio_den))
        by (nonlinear_arith);
}

/// Number of device pixels needed to cover a glyph of the given width and
/// height in font design units: each extent is multiplied by the ratio and
/// rounded up to the next whole pixel.
pub fn get_glyph_size(width: i64, height: i64, ratio_num: i64, ratio_den: i64) -> (r: (i64, i64))
    requires
        0 <= width <= 0x4_0000,
        0 <= height <= 0x4_0000,
        1 <= ratio_num <= 0x10_0000,
        1 <= ratio_den <= 0x4000_0000,
    ensures
        r.0 == (width * ratio_num + ratio_den - 1) / (ratio_den as int),
        r.1 == (height * ratio_num + ratio_den - 1) / (ratio_den as int),
        ratio_den * r.0 >= width * ratio_num,
        ratio_den * (r.0 - 1) < width * ratio_num,
        ratio_den * r.1 >= height * ratio_num,
        ratio_den * (r.1 - 1) < height * ratio_num,
        0 <= r.0,
        0 <= r.1,
{
    proof {
        lemma_ceil_div(width as int, ratio_num as int, ratio_den as int);
        lemma_ceil_div(height as int, ratio_num as int, ratio_den as int);
    }
    let x_pixels = (width * ratio_num + ratio_den - 1) / ratio_den;
    let y_pixels = (height * ratio_num + ratio_den - 1) / ratio_den;
    (x_pixels, y_pixels)
}

/// `(w * n + d - 1) / d` is the exact ceiling of `w * n / d`.
proof fn lemma_ceil_div(w: int, n: int, d: int)
    requires
        0 <= w <= 0x4_0000,
        1 <= n <= 0x10_0000,
        1 <= d <= 0x4000_0000,
    ensures
        0 <= w * n <= 0x4000_0000_0000,
        d * ((w * n + d - 1) / d) >= w * n,
        d * ((w * n + d - 1) / d - 1) < w * n,
        0 <= (w * n + d - 1) / d <= 0x4000_0000_0000,
{
    assert(0 <= w * n <= 0x4000_0000_0000) by (nonlinear_arith)
        requires
            0 <= w <= 0x4_0000,
            1 <= n <= 0x10_0000,
    ;
    let s = w * n + d - 1;
    let q = s / d;
    vstd::arithmetic::div_mod::lemma_fundamental_div_mod(s, d);
    vstd::arithmetic::div_mod::lemma_mod_bound(s, d);
    assert(s == d * q + s % d);
    assert(d * q >= w * n && d * (q - 1) < w * n && 0 <= q <= 0x4000_0000_0000) by (nonlinear_arith)
        requires
            s == w * n + d - 1,
            s == d * q + s % d,
            0 <= s % d < d,
            1 <= d <= 0x4000_0000,
            0 <= w * n <= 0x4000_0000_0000,
    ;
}

/// The display coordinate flip: the host's display has its origin at the
/// top left with y growing downward, while the glyph geometry has y
/// growing upward, so a font-space y maps to `canvas_height - y`.
pub fn to_display_y(canvas_height: i64, y: i64) -> (r: i64)
    requires
        -0x1000_0000 <= canvas_height <= 0x1000_0000,
        -0x1000_0000 <= y <= 0x1000_0000,
    ensures
        r == canvas_height - y,
{
    canvas_height - y
}

} // verus!
