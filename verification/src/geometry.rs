//! Overflow-checked image geometry: the side of a raster in pixels and the
//! length of its byte buffer, both within the range of `i32`.

use vstd::prelude::*;

verus! {

/// Samples per pixel of the raster output (8-bit RGB).
pub const COLOUR_SAMPLES: usize = 3;

/// Whether `v` lies in the range of `i32`.
pub open spec fn fits_i32(v: int) -> bool {
    i32::MIN <= v <= i32::MAX
}

/// Side length in pixels of a symbol of `n` modules with a quiet zone of
/// `border` modules on each side, drawn at `scale` pixels per module.
pub open spec fn pixel_size_of(n: int, border: int, scale: int) -> int {
    (n + 2 * border) * scale
}

/// Number of bytes of a square raster of side `pixel_size` with
/// `colour_depth` bytes per pixel.
pub open spec fn byte_length_of(pixel_size: int, colour_depth: int) -> int {
    pixel_size * pixel_size * colour_depth
}

/// The pixel side length as computed in stages: doubling the border, adding
/// the symbol size, multiplying by the scale. Absent as soon as one stage
/// leaves the range of `i32`.
pub open spec fn staged_pixel_size(n: int, border: int, scale: int) -> Option<int> {
    if fits_i32(2 * border) && fits_i32(n + 2 * border) && fits_i32((n + 2 * border) * scale) {
        Some(pixel_size_of(n, border, scale))
    } else {
        None
    }
}

/// The buffer length as computed in stages: converting the colour depth,
/// squaring the side, multiplying by the depth. Absent as soon as one stage
/// leaves the range of `i32`.
pub open spec fn staged_byte_length(pixel_size: int, colour_depth: int) -> Option<int> {
    if colour_depth <= i32::MAX && fits_i32(pixel_size * pixel_size) && fits_i32(
        pixel_size * pixel_size * colour_depth,
    ) {
        Some(byte_length_of(pixel_size, colour_depth))
    } else {
        None
    }
}

/// A computed dimension agrees with its mathematical counterpart.
pub open spec fn agrees(computed: Option<i32>, exact: Option<int>) -> bool {
    match computed {
        Some(v) => exact == Some(v as int),
        None => exact is None,
    }
}

/// For a symbol size and border that are not negative and a scale of at
/// least one, the staged computation fails exactly when the true side length
/// exceeds `i32::MAX`.
pub proof fn lemma_pixel_size_exact(n: int, border: int, scale: int)
    requires
        0 <= n,
        0 <= border,
        1 <= scale,
    ensures
        staged_pixel_size(n, border, scale) is Some <==> pixel_size_of(n, border, scale)
            <= i32::MAX,
        staged_pixel_size(n, border, scale) is None <==> pixel_size_of(n, border, scale)
            > i32::MAX,
        0 <= pixel_size_of(n, border, scale),
{
    let m = n + 2 * border;
    assert(m <= m * scale && 0 <= m * scale) by (nonlinear_arith)
        requires
            0 <= m,
            1 <= scale,
    ;
}

/// For a colour depth of at least one, the staged computation fails exactly
/// when the true buffer length exceeds `i32::MAX`, whatever the sign of the
/// side length. A side of zero is admitted only with a depth that is itself
/// in range: the product is then zero although the depth cannot be
/// converted.
pub proof fn lemma_byte_length_exact(pixel_size: int, colour_depth: int)
    requires
        1 <= colour_depth,
        pixel_size != 0 || colour_depth <= i32::MAX,
    ensures
        staged_byte_length(pixel_size, colour_depth) is Some <==> byte_length_of(
            pixel_size,
            colour_depth,
        ) <= i32::MAX,
        staged_byte_length(pixel_size, colour_depth) is None <==> byte_length_of(
            pixel_size,
            colour_depth,
        ) > i32::MAX,
        0 <= byte_length_of(pixel_size, colour_depth),
{
    let sq = pixel_size * pixel_size;
    assert(0 <= sq && (pixel_size != 0 ==> 1 <= sq)) by (nonlinear_arith)
        requires
            sq == pixel_size * pixel_size,
    ;
    assert(sq <= sq * colour_depth && (1 <= sq ==> colour_depth <= sq * colour_depth))
        by (nonlinear_arith)
        requires
            0 <= sq,
            1 <= colour_depth,
    ;
}

/// Computes `(n + 2 * border) * scale`, checking every step for overflow.
pub fn checked_pixel_size(n: i32, border: i32, scale: i32) -> (r: Option<i32>)
    ensures
        agrees(r, staged_pixel_size(n as int, border as int, scale as int)),
        0 <= n && 0 <= border && 1 <= scale ==> (r is None <==> pixel_size_of(
            n as int,
            border as int,
            scale as int,
        ) > i32::MAX),
{
    proof {
        if 0 <= n && 0 <= border && 1 <= scale {
            lemma_pixel_size_exact(n as int, border as int, scale as int);
        }
    }
    match border.checked_mul(2) {
        Some(b) => match n.checked_add(b) {
            Some(m) => m.checked_mul(scale),
            None => None,
        },
        None => None,
    }
}

/// Computes `pixel_size * pixel_size * colour_depth`, checking every step
/// for overflow, the square included.
pub fn checked_byte_length(pixel_size: i32, colour_depth: usize) -> (r: Option<i32>)
    ensures
        agrees(r, staged_byte_length(pixel_size as int, colour_depth as int)),
        1 <= colour_depth && (pixel_size != 0 || colour_depth <= i32::MAX) ==> (r is None
            <==> byte_length_of(pixel_size as int, colour_depth as int) > i32::MAX),
{
    proof {
        if 1 <= colour_depth && (pixel_size != 0 || colour_depth <= i32::MAX) {
            lemma_byte_length_exact(pixel_size as int, colour_depth as int);
        }
    }
    match i32::try_from(colour_depth) {
        Ok(cd) => match pixel_size.checked_mul(pixel_size) {
            Some(sq) => sq.checked_mul(cd),
            None => None,
        },
        Err(_) => None,
    }
}

/// Chained, overflow-checked geometry on a size that may already be absent.
pub trait Checked: Sized {
    /// The size carried by `self`, if any.
    spec fn carried(self) -> Option<i32>;

    /// The pixel side length for the carried symbol size, absent if `self`
    /// carries none or a step overflows.
    fn checked_size(self, scale: i32, border: i32) -> (r: Option<i32>)
        ensures
            self.carried() is None ==> r is None,
            self.carried() matches Some(n) ==> agrees(
                r,
                staged_pixel_size(n as int, border as int, scale as int),
            ),
    ;

    /// The buffer length for the carried pixel side length, absent if
    /// `self` carries none or a step overflows.
    fn checked_length(self, colour_depth: usize) -> (r: Option<i32>)
        ensures
            self.carried() is None ==> r is None,
            self.carried() matches Some(p) ==> agrees(
                r,
                staged_byte_length(p as int, colour_depth as int),
            ),
    ;
}

impl Checked for Option<i32> {
    open spec fn carried(self) -> Option<i32> {
        self
    }

    fn checked_size(self, scale: i32, border: i32) -> (r: Option<i32>) {
        match self {
            Some(n) => checked_pixel_size(n, border, scale),
            None => None,
        }
    }

    fn checked_length(self, colour_depth: usize) -> (r: Option<i32>) {
        match self {
            Some(p) => checked_byte_length(p, colour_depth),
            None => None,
        }
    }
}

} // verus!
