//! Raster rendering: painting the modules of a matrix, surrounded by a quiet
//! zone, into a buffer of 8-bit RGB pixels.

use crate::geometry::{
    byte_length_of, checked_byte_length, checked_pixel_size, lemma_byte_length_exact,
    lemma_pixel_size_exact, pixel_size_of, staged_byte_length, staged_pixel_size,
    COLOUR_SAMPLES,
};
use crate::matrix::{dark, is_square, lemma_cell_index, Matrix};
use vstd::prelude::*;

verus! {

/// Value of every byte of a pixel that no set module covers.
pub const BACKGROUND: u8 = 255;

/// Value of every byte of a pixel that a set module covers.
pub const FOREGROUND: u8 = 0;

/// The module coordinate that a pixel coordinate falls on: the pixel
/// coordinate divided by the scale, less the border.
pub open spec fn module_coordinate(pixel: int, scale: int, border: int) -> int {
    pixel / scale - border
}

/// Whether the pixel at column `x` and row `y` lies on a set module.
pub open spec fn painted(grid: Seq<Seq<bool>>, border: int, scale: int, x: int, y: int) -> bool {
    dark(grid, module_coordinate(x, scale, border), module_coordinate(y, scale, border))
}

/// Position in the buffer of the first byte of the pixel at column `x` and
/// row `y` of a raster of side `pixel_size`.
pub open spec fn offset_of(x: int, y: int, pixel_size: int) -> int {
    x * 3 + y * (pixel_size * 3)
}

/// The byte at position `i` of the raster of side `pixel_size`.
pub open spec fn raster_byte(
    grid: Seq<Seq<bool>>,
    border: int,
    scale: int,
    pixel_size: int,
    i: int,
) -> u8 {
    let pixel = i / 3;
    if painted(grid, border, scale, pixel % pixel_size, pixel / pixel_size) {
        FOREGROUND
    } else {
        BACKGROUND
    }
}

/// The whole buffer of the raster of a grid: rows of pixels from the top,
/// three bytes to the pixel.
pub open spec fn raster_of(grid: Seq<Seq<bool>>, border: int, scale: int) -> Seq<u8> {
    let p = pixel_size_of(grid.len() as int, border, scale);
    Seq::new(byte_length_of(p, 3) as nat, |i: int| raster_byte(grid, border, scale, p, i))
}

/// Side length of the raster of a grid of side `n`, where both that length
/// and the length of its buffer can be computed within `i32`.
pub open spec fn raster_side(n: int, border: int, scale: int) -> Option<int> {
    match staged_pixel_size(n, border, scale) {
        Some(p) => if staged_byte_length(p, 3) is Some {
            Some(p)
        } else {
            None
        },
        None => None,
    }
}

/// The first byte of pixel `(x, y)` is byte `3 * (y * p + x)` of the buffer,
/// and the three bytes from there belong to that pixel alone.
pub proof fn lemma_pixel_offset(p: int, x: int, y: int, c: int)
    requires
        0 <= x < p,
        0 <= y < p,
        0 <= c < 3,
    ensures
        offset_of(x, y, p) == 3 * (y * p + x),
        0 <= offset_of(x, y, p) + c < byte_length_of(p, 3),
        (offset_of(x, y, p) + c) / 3 == y * p + x,
        ((offset_of(x, y, p) + c) / 3) % p == x,
        ((offset_of(x, y, p) + c) / 3) / p == y,
{
    lemma_cell_index(p, x, y);
    assert(y * (p * 3) == 3 * (y * p)) by (nonlinear_arith);
    assert(p * p * 3 == 3 * (p * p)) by (nonlinear_arith);
}

/// Every byte of every pixel of the raster is the foreground value exactly
/// when the module that the pixel maps back to is set in the grid, and the
/// background value otherwise: for an unset module as for a coordinate in
/// the quiet zone.
pub proof fn lemma_raster_round_trip(
    grid: Seq<Seq<bool>>,
    border: int,
    scale: int,
    x: int,
    y: int,
    c: int,
)
    requires
        is_square(grid),
        0 <= x < pixel_size_of(grid.len() as int, border, scale),
        0 <= y < pixel_size_of(grid.len() as int, border, scale),
        0 <= c < 3,
    ensures
        ({
            let p = pixel_size_of(grid.len() as int, border, scale);
            let i = offset_of(x, y, p) + c;
            let mx = module_coordinate(x, scale, border);
            let my = module_coordinate(y, scale, border);
            &&& 0 <= i < raster_of(grid, border, scale).len()
            &&& raster_of(grid, border, scale)[i] == FOREGROUND <==> dark(grid, mx, my)
            &&& raster_of(grid, border, scale)[i] == BACKGROUND <==> !dark(grid, mx, my)
            &&& !(0 <= mx < grid.len() && 0 <= my < grid.len()) ==> raster_of(
                grid,
                border,
                scale,
            )[i] == BACKGROUND
        }),
{
    let p = pixel_size_of(grid.len() as int, border, scale);
    let i = offset_of(x, y, p) + c;
    lemma_pixel_offset(p, x, y, c);
    assert(raster_of(grid, border, scale)[i] == raster_byte(grid, border, scale, p, i));
    assert(raster_byte(grid, border, scale, p, i) == (if painted(grid, border, scale, x, y) {
        FOREGROUND
    } else {
        BACKGROUND
    }));
}

/// A square raster of 8-bit RGB pixels.
pub struct Canvas {
    /// Side length in pixels.
    pub pixel_size: i32,
    /// The pixels, row by row from the top, three bytes each.
    pub data: Vec<u8>,
}

/// What `rasterize` returns for a grid, a border and a scale: nothing where
/// the geometry is out of range, and else the raster of the grid.
pub open spec fn rasterized(
    grid: Seq<Seq<bool>>,
    border: int,
    scale: int,
    result: Option<Canvas>,
) -> bool {
    match raster_side(grid.len() as int, border, scale) {
        None => result is None,
        Some(p) => {
            &&& result is Some
            &&& result->0.pixel_size == p
            &&& result->0.data@ == raster_of(grid, border, scale)
        },
    }
}

/// Rendering is a function of the grid, the border and the scale: any two
/// outcomes for the same three agree on whether there is a raster, on its
/// side and on every byte.
pub proof fn lemma_rasterize_deterministic(
    grid: Seq<Seq<bool>>,
    border: int,
    scale: int,
    first: Option<Canvas>,
    second: Option<Canvas>,
)
    requires
        rasterized(grid, border, scale, first),
        rasterized(grid, border, scale, second),
    ensures
        first is Some <==> second is Some,
        first is Some ==> first->0.pixel_size == second->0.pixel_size && first->0.data@
            == second->0.data@,
{
}

/// Renders a matrix with a quiet zone of `border` modules at `scale` pixels
/// per module. The side of the raster is `(size + 2 * border) * scale`
/// pixels; the buffer starts out all background, and the pixels on set
/// modules are then painted with the foreground value.
///
/// Returns `None` where the side or the buffer length overflows `i32`.
pub fn rasterize(matrix: &Matrix, border: u8, scale: u8) -> (r: Option<Canvas>)
    ensures
        rasterized(matrix@, border as int, scale as int, r),
        scale >= 1 ==> (r is None <==> pixel_size_of(
            matrix@.len() as int,
            border as int,
            scale as int,
        ) > i32::MAX || byte_length_of(
            pixel_size_of(matrix@.len() as int, border as int, scale as int),
            3,
        ) > i32::MAX),
{
    let n: i32 = matrix.size();
    let ghost grid = matrix@;
    let s: i32 = scale as i32;
    let b: i32 = border as i32;
    proof {
        if scale >= 1 {
            lemma_pixel_size_exact(n as int, b as int, s as int);
        }
        lemma_byte_length_exact(pixel_size_of(n as int, b as int, s as int), 3);
    }
    let p: i32 = match checked_pixel_size(n, b, s) {
        Some(p) => p,
        None => {
            return None;
        },
    };
    let len: i32 = match checked_byte_length(p, COLOUR_SAMPLES) {
        Some(len) => len,
        None => {
            return None;
        },
    };
    assert(0 <= p && 0 <= len && len == p * p * 3);
    let mut data: Vec<u8> = vec![BACKGROUND; len as usize];
    if scale == 0 {
        proof {
            assert((n + 2 * b) * s == 0) by (nonlinear_arith)
                requires
                    s == 0,
            ;
            assert(data@ =~= raster_of(grid, b as int, s as int));
        }
        return Some(Canvas { pixel_size: p, data });
    }
    assert(p * 3 <= len) by (nonlinear_arith)
        requires
            0 <= p,
            len == p * p * 3,
    ;
    let row: usize = (p as usize) * 3;
    let mut y: i32 = 0;
    while y < p
        invariant
            grid == matrix@,
            0 < s == scale,
            0 <= b == border,
            0 <= p,
            row == p * 3,
            len == p * p * 3,
            data@.len() == len,
            0 <= y <= p,
            forall|i: int|
                0 <= i < len ==> #[trigger] data@[i] == (if i < 3 * (y * p) {
                    raster_byte(grid, b as int, s as int, p as int, i)
                } else {
                    BACKGROUND
                }),
        decreases p - y,
    {
        let my: i32 = y / s - b;
        let mut x: i32 = 0;
        while x < p
            invariant
                grid == matrix@,
                0 < s == scale,
                0 <= b == border,
                0 <= p,
                row == p * 3,
                len == p * p * 3,
                data@.len() == len,
                0 <= y < p,
                0 <= x <= p,
                my == module_coordinate(y as int, s as int, b as int),
                forall|i: int|
                    0 <= i < len ==> #[trigger] data@[i] == (if i < 3 * (y * p + x) {
                        raster_byte(grid, b as int, s as int, p as int, i)
                    } else {
                        BACKGROUND
                    }),
            decreases p - x,
        {
            let mx: i32 = x / s - b;
            proof {
                lemma_pixel_offset(p as int, x as int, y as int, 0);
                lemma_pixel_offset(p as int, x as int, y as int, 1);
                lemma_pixel_offset(p as int, x as int, y as int, 2);
                assert(0 <= y * (p * 3)) by (nonlinear_arith)
                    requires
                        0 <= y,
                        0 <= p,
                ;
            }
            let offset: usize = (x as usize) * 3 + (y as usize) * row;
            if matrix.get_module(mx, my) {
                data.set(offset, FOREGROUND);
                data.set(offset + 1, FOREGROUND);
                data.set(offset + 2, FOREGROUND);
            }
            proof {
                assert(3 * (y * p + (x + 1)) == offset + 3) by (nonlinear_arith)
                    requires
                        offset == 3 * (y * p + x),
                ;
            }
            x = x + 1;
        }
        proof {
            assert(3 * (y * p + p) == 3 * ((y + 1) * p)) by (nonlinear_arith);
        }
        y = y + 1;
    }
    proof {
        assert(3 * (p * p) == len) by (nonlinear_arith)
            requires
                len == p * p * 3,
        ;
        assert(data@ =~= raster_of(grid, b as int, s as int));
    }
    Some(Canvas { pixel_size: p, data })
}

} // verus!
