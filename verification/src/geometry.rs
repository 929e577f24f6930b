//! Integer screen geometry: points, rectangles and the virtual desktop.

use vstd::prelude::*;

verus! {

/// Width of the lens in logical pixels, that is, in pixels at 96 DPI.
pub const LENS_W: i32 = 420;

/// Height of the lens in logical pixels, that is, in pixels at 96 DPI; also the
/// diameter of its rounded ends.
pub const LENS_H: i32 = 280;

/// The DPI at which a logical pixel is one physical pixel.
pub const BASE_DPI: u32 = 96;

/// A point in virtual-desktop coordinates.
#[derive(Clone, Copy, Debug, PartialEq, Eq, Structural)]
pub struct Point {
    pub x: i32,
    pub y: i32,
}

/// A half-open rectangle `[left, right) x [top, bottom)`.
#[derive(Clone, Copy, Debug, PartialEq, Eq, Structural)]
pub struct Rect {
    pub left: i32,
    pub top: i32,
    pub right: i32,
    pub bottom: i32,
}

/// The virtual desktop as the system metrics describe it: the origin of the
/// bounding box of all monitors and its extent.
#[derive(Clone, Copy, Debug, PartialEq, Eq, Structural)]
pub struct VirtualScreen {
    pub left: i32,
    pub top: i32,
    pub width: i32,
    pub height: i32,
}

/// Whether the pixel `(x, y)` lies in `r`.
pub open spec fn rect_contains(r: Rect, x: int, y: int) -> bool {
    r.left <= x < r.right && r.top <= y < r.bottom
}

pub open spec fn spec_max(a: int, b: int) -> int {
    if a >= b { a } else { b }
}

pub open spec fn spec_min(a: int, b: int) -> int {
    if a <= b { a } else { b }
}

/// `v` clamped to `[lo, hi]`, as `Ord::clamp` computes it for `lo <= hi`.
pub open spec fn spec_clamp(v: int, lo: int, hi: int) -> int {
    if v < lo { lo } else if v > hi { hi } else { v }
}

pub open spec fn fits_i32(v: int) -> bool {
    i32::MIN <= v <= i32::MAX
}

/// Whether `v` is a value of `i32`.
pub fn i64_fits_i32(v: i64) -> (r: bool)
    ensures
        r == fits_i32(v as int),
{
    i32::MIN as i64 <= v && v <= i32::MAX as i64
}

/// The larger of two integers.
pub fn max_i32(a: i32, b: i32) -> (r: i32)
    ensures
        r == spec_max(a as int, b as int),
{
    if a >= b { a } else { b }
}

/// The smaller of two integers.
pub fn min_i32(a: i32, b: i32) -> (r: i32)
    ensures
        r == spec_min(a as int, b as int),
{
    if a <= b { a } else { b }
}

/// `v` clamped to `[lo, hi]`.
pub fn clamp_i32(v: i32, lo: i32, hi: i32) -> (r: i32)
    requires
        lo <= hi,
    ensures
        r == spec_clamp(v as int, lo as int, hi as int),
        lo <= r <= hi,
{
    if v < lo {
        lo
    } else if v > hi {
        hi
    } else {
        v
    }
}

/// `value` logical pixels in physical pixels at `dpi`, rounded to the nearest
/// pixel and kept to `i32`.
pub open spec fn spec_scale_for_dpi(value: int, dpi: int) -> i32 {
    ((value * dpi + 48) / 96) as i32
}

/// The lens's width and height in physical pixels at `dpi`.
pub open spec fn spec_lens_size(dpi: u32) -> Point {
    Point { x: spec_scale_for_dpi(LENS_W as int, dpi as int), y: spec_scale_for_dpi(LENS_H as int, dpi as int) }
}

/// Converts a non-negative length in logical pixels to physical pixels at `dpi`.
pub fn scale_for_dpi(value: i32, dpi: u32) -> (r: i32)
    requires
        value >= 0,
    ensures
        r == spec_scale_for_dpi(value as int, dpi as int),
        (value * dpi + 48) / 96 <= i32::MAX ==> 96 * r <= value * dpi + 48 < 96 * r + 96,
{
    proof {
        if (value * dpi + 48) / 96 <= i32::MAX {
            lemma_scale_rounds_to_nearest(value as int, dpi as int);
        }
    }
    assert(0 <= value as int * dpi as int <= i32::MAX as int * u32::MAX as int) by (nonlinear_arith)
        requires
            0 <= value <= i32::MAX,
            0 <= dpi <= u32::MAX,
    ;
    let scaled: i64 = (value as i64 * dpi as i64 + 48) / 96;
    scaled as i32
}

/// The lens's size in physical pixels at `dpi`.
pub fn lens_size(dpi: u32) -> (r: Point)
    ensures
        r == spec_lens_size(dpi),
{
    Point { x: scale_for_dpi(LENS_W, dpi), y: scale_for_dpi(LENS_H, dpi) }
}

/// Scaling gives the logical length times `dpi / 96`, rounded to the nearest
/// whole pixel (halves rounding up), at every DPI whose result fits in `i32`.
pub proof fn lemma_scale_rounds_to_nearest(value: int, dpi: int)
    requires
        value >= 0,
        dpi >= 0,
        (value * dpi + 48) / 96 <= i32::MAX,
    ensures
        96 * spec_scale_for_dpi(value, dpi) <= value * dpi + 48 < 96 * spec_scale_for_dpi(value, dpi)
            + 96,
        spec_scale_for_dpi(value, dpi) >= 0,
{
    assert(value * dpi >= 0) by (nonlinear_arith)
        requires
            value >= 0,
            dpi >= 0,
    ;
    let n = value * dpi + 48;
    assert(96 * (n / 96) <= n < 96 * (n / 96) + 96);
}

/// The lens at every DPI up to 100000 is its logical size times `dpi / 96`,
/// each side rounded to the nearest pixel.
pub proof fn lemma_lens_size_scales(dpi: u32)
    requires
        dpi <= 100_000,
    ensures
        96 * spec_lens_size(dpi).x <= LENS_W * dpi + 48 < 96 * spec_lens_size(dpi).x + 96,
        96 * spec_lens_size(dpi).y <= LENS_H * dpi + 48 < 96 * spec_lens_size(dpi).y + 96,
{
    assert(LENS_W * dpi + 48 <= 42_000_048);
    assert(LENS_H * dpi + 48 <= 28_000_048);
    lemma_scale_rounds_to_nearest(LENS_W as int, dpi as int);
    lemma_scale_rounds_to_nearest(LENS_H as int, dpi as int);
}

/// At 96 DPI the lens has its logical size; at 144 DPI (150% scaling) it is
/// half as large again.
pub proof fn lemma_lens_size_examples()
    ensures
        spec_lens_size(96) == (Point { x: 420, y: 280 }),
        spec_lens_size(144) == (Point { x: 630, y: 420 }),
        spec_lens_size(192) == (Point { x: 840, y: 560 }),
        spec_lens_size(240) == (Point { x: 1050, y: 700 }),
        spec_lens_size(288) == (Point { x: 1260, y: 840 }),
{
}

/// For every DPI that a monitor can have, the lens keeps its proportions up
/// to rounding, is never narrower than it is high, and grows with the DPI.
pub proof fn lemma_lens_size_monotonic(dpi: u32, dpi2: u32)
    requires
        dpi <= dpi2 <= 100_000,
    ensures
        0 <= spec_lens_size(dpi).y <= spec_lens_size(dpi).x,
        spec_lens_size(dpi).x <= spec_lens_size(dpi2).x,
        spec_lens_size(dpi).y <= spec_lens_size(dpi2).y,
{
    assert(0 <= 280 * (dpi as int) <= 420 * (dpi as int) <= 420 * (dpi2 as int)) by (nonlinear_arith)
        requires
            0 <= dpi <= dpi2,
    ;
    assert(280 * (dpi as int) <= 280 * (dpi2 as int)) by (nonlinear_arith)
        requires
            0 <= dpi <= dpi2,
    ;
    assert(420 * (dpi2 as int) + 48 <= 42_000_048);
    vstd::arithmetic::div_mod::lemma_div_is_ordered(280 * (dpi as int) + 48, 420 * (dpi as int) + 48, 96);
    vstd::arithmetic::div_mod::lemma_div_is_ordered(420 * (dpi as int) + 48, 420 * (dpi2 as int) + 48, 96);
    vstd::arithmetic::div_mod::lemma_div_is_ordered(280 * (dpi as int) + 48, 280 * (dpi2 as int) + 48, 96);
    vstd::arithmetic::div_mod::lemma_div_is_ordered(420 * (dpi2 as int) + 48, 42_000_048, 96);
    vstd::arithmetic::div_mod::lemma_div_is_ordered(0, 280 * (dpi as int) + 48, 96);
}

/// The scissor rectangle of one draw pass: the rectangle `output`, taken into
/// the coordinates of a window whose top-left corner is at the desktop point
/// `(window.left, window.top)`, cut down to the window's client area
/// `[0, width) x [0, height)`.
pub open spec fn spec_scissor(output: Rect, window: Rect, width: int, height: int) -> Rect {
    Rect {
        left: spec_max(output.left - window.left, 0) as i32,
        top: spec_max(output.top - window.top, 0) as i32,
        right: spec_min(output.right - window.left, width) as i32,
        bottom: spec_min(output.bottom - window.top, height) as i32,
    }
}

/// The four window-relative coordinates of `output` fit in `i32`.
pub open spec fn scissor_fits(output: Rect, window: Rect) -> bool {
    &&& fits_i32(output.left - window.left)
    &&& fits_i32(output.top - window.top)
    &&& fits_i32(output.right - window.left)
    &&& fits_i32(output.bottom - window.top)
}

/// Computes the scissor rectangle of the draw pass for one output.
pub fn scissor_rect(output: Rect, window: Rect, width: i32, height: i32) -> (r: Rect)
    requires
        scissor_fits(output, window),
    ensures
        r == spec_scissor(output, window, width as int, height as int),
        r.left >= 0,
        r.top >= 0,
        r.right <= width,
        r.bottom <= height,
{
    Rect {
        left: max_i32(output.left - window.left, 0),
        top: max_i32(output.top - window.top, 0),
        right: min_i32(output.right - window.left, width),
        bottom: min_i32(output.bottom - window.top, height),
    }
}

/// The scissor rectangle is exactly the intersection of the output, seen from
/// the window, with the window's client area: a window pixel is drawn for an
/// output if and only if it shows a point of that output and lies in the window.
pub proof fn lemma_scissor_is_intersection(
    output: Rect,
    window: Rect,
    width: i32,
    height: i32,
    x: int,
    y: int,
)
    requires
        scissor_fits(output, window),
    ensures
        rect_contains(spec_scissor(output, window, width as int, height as int), x, y) <==> (
        rect_contains(output, x + window.left, y + window.top) && 0 <= x < width && 0 <= y
            < height),
{
}

} // verus!
