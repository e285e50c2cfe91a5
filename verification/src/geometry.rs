//! Block-grid geometry of a transcoded image.
//!
//! Given texel dimensions and a format choice, the pipeline needs the block
//! grid covering the image, the byte pitch of one row of blocks, and the
//! total byte size of the destination buffer. Partial blocks at the border
//! round up: the buffer always holds whole blocks covering the full image.

use vstd::arithmetic::div_mod::lemma_fundamental_div_mod;
use vstd::arithmetic::div_mod::lemma_fundamental_div_mod_converse;
use vstd::arithmetic::div_mod::lemma_mod_pos_bound;
use vstd::prelude::*;

use crate::selection::FormatChoice;

verus! {

/// Ceiling division: the least `q` with `a <= q * b`, for positive `a`, `b`.
pub open spec fn div_ceil(a: int, b: int) -> int
    recommends
        1 <= b,
{
    (a + b - 1) / b
}

/// Blocks needed to cover `width` texels horizontally.
pub open spec fn blocks_wide_spec(width: int, c: FormatChoice) -> int {
    div_ceil(width, c.block_width as int)
}

/// Blocks needed to cover `height` texels vertically.
pub open spec fn blocks_high_spec(height: int, c: FormatChoice) -> int {
    div_ceil(height, c.block_height as int)
}

/// Byte stride from the start of one row of blocks to the next.
pub open spec fn row_pitch_spec(width: int, c: FormatChoice) -> int {
    blocks_wide_spec(width, c) * c.bytes_per_block
}

/// Byte size of a buffer holding every block of the image.
pub open spec fn total_bytes_spec(width: int, height: int, c: FormatChoice) -> int {
    blocks_wide_spec(width, c) * blocks_high_spec(height, c) * c.bytes_per_block
}

/// The block layout of a format choice is usable: every dimension positive.
pub open spec fn blocks_positive(c: FormatChoice) -> bool {
    &&& 1 <= c.block_width
    &&& 1 <= c.block_height
    &&& 1 <= c.bytes_per_block
}

/// The byte counts for this image and choice stay within `u32` range.
pub open spec fn geometry_fits(width: int, height: int, c: FormatChoice) -> bool {
    total_bytes_spec(width, height, c) <= u32::MAX
}

/// The derived geometry of one image under one format choice.
#[derive(Clone, Copy, Debug, PartialEq, Eq, Structural)]
pub struct ImageGeometry {
    /// Blocks covering the image horizontally (border blocks rounded up).
    pub blocks_wide: u32,
    /// Blocks covering the image vertically (border blocks rounded up).
    pub blocks_high: u32,
    /// Byte stride of one row of blocks: `blocks_wide * bytes_per_block`.
    pub row_pitch_bytes: u32,
    /// Byte size of the whole destination buffer.
    pub total_bytes: u32,
}

/// `g` is exactly the geometry of a `width` x `height` image under `c`.
pub open spec fn geometry_matches(g: ImageGeometry, width: int, height: int, c: FormatChoice) -> bool {
    &&& g.blocks_wide == blocks_wide_spec(width, c)
    &&& g.blocks_high == blocks_high_spec(height, c)
    &&& g.row_pitch_bytes == row_pitch_spec(width, c)
    &&& g.total_bytes == total_bytes_spec(width, height, c)
}

/// The overflow-free ceiling-division form used by the executable code
/// agrees with [`div_ceil`].
proof fn lemma_div_ceil_alt(a: int, b: int)
    requires
        1 <= a,
        1 <= b,
    ensures
        (a - 1) / b + 1 == div_ceil(a, b),
        0 <= (a - 1) / b,
        1 <= div_ceil(a, b),
{
    let q = (a - 1) / b;
    let r = (a - 1) % b;
    lemma_fundamental_div_mod(a - 1, b);
    lemma_mod_pos_bound(a - 1, b);
    assert(a + b - 1 == (q + 1) * b + r) by (nonlinear_arith)
        requires
            a - 1 == b * q + r,
    ;
    lemma_fundamental_div_mod_converse(a + b - 1, b, q + 1, r);
    assert(0 <= q) by (nonlinear_arith)
        requires
            0 <= a - 1,
            1 <= b,
            q == (a - 1) / b,
    ;
}

/// Geometry Calculator: block-grid dimensions, row pitch and total buffer
/// size for a `width` x `height` image under the format choice `c`.
///
/// Border blocks round up, so the buffer covers the whole image even when a
/// dimension is not a multiple of the block size. Byte counts that would
/// overflow `u32` are excluded by precondition; [`compute_geometry_checked`]
/// performs that guard at run time.
pub fn compute_geometry(width: u32, height: u32, c: FormatChoice) -> (g: ImageGeometry)
    requires
        1 <= width,
        1 <= height,
        blocks_positive(c),
        geometry_fits(width as int, height as int, c),
    ensures
        geometry_matches(g, width as int, height as int, c),
{
    proof {
        lemma_div_ceil_alt(width as int, c.block_width as int);
        lemma_div_ceil_alt(height as int, c.block_height as int);
    }
    let blocks_wide: u32 = (width - 1) / c.block_width + 1;
    let blocks_high: u32 = (height - 1) / c.block_height + 1;
    proof {
        let bwl = blocks_wide as int;
        let bhl = blocks_high as int;
        let bpb = c.bytes_per_block as int;
        assert(bwl * bhl <= bwl * bhl * bpb && bwl * bpb <= bwl * bhl * bpb) by (nonlinear_arith)
            requires
                1 <= bwl,
                1 <= bhl,
                1 <= bpb,
        ;
    }
    let block_count: u32 = blocks_wide * blocks_high;
    let total_bytes: u32 = block_count * c.bytes_per_block;
    let row_pitch_bytes: u32 = blocks_wide * c.bytes_per_block;
    ImageGeometry { blocks_wide, blocks_high, row_pitch_bytes, total_bytes }
}

/// [`compute_geometry`] behind its overflow guard: returns `None` exactly
/// when a dimension is zero or the byte counts would leave `u32` range.
pub fn compute_geometry_checked(width: u32, height: u32, c: FormatChoice) -> (r: Option<
    ImageGeometry,
>)
    requires
        blocks_positive(c),
    ensures
        r is Some <==> (1 <= width && 1 <= height && geometry_fits(
            width as int,
            height as int,
            c,
        )),
        r matches Some(g) ==> geometry_matches(g, width as int, height as int, c),
{
    if width == 0 || height == 0 {
        return None;
    }
    proof {
        lemma_div_ceil_alt(width as int, c.block_width as int);
        lemma_div_ceil_alt(height as int, c.block_height as int);
    }
    let blocks_wide: u32 = (width - 1) / c.block_width + 1;
    let blocks_high: u32 = (height - 1) / c.block_height + 1;
    let ghost bwl = blocks_wide as int;
    let ghost bhl = blocks_high as int;
    let ghost bpb = c.bytes_per_block as int;
    match blocks_wide.checked_mul(blocks_high) {
        None => {
            proof {
                assert(u32::MAX < bwl * bhl * bpb) by (nonlinear_arith)
                    requires
                        u32::MAX < bwl * bhl,
                        1 <= bpb,
                        0 <= bwl,
                        0 <= bhl,
                ;
            }
            None
        },
        Some(block_count) => match block_count.checked_mul(c.bytes_per_block) {
            None => None,
            Some(_total) => Some(compute_geometry(width, height, c)),
        },
    }
}

/// Row-pitch coverage law: when the image dimensions are exact multiples of
/// the block size, the row pitch times the number of block rows equals the
/// total buffer size.
pub proof fn lemma_row_pitch_covers_buffer(width: int, height: int, c: FormatChoice)
    requires
        1 <= width,
        1 <= height,
        blocks_positive(c),
        width % (c.block_width as int) == 0,
        height % (c.block_height as int) == 0,
    ensures
        row_pitch_spec(width, c) * blocks_high_spec(height, c) == total_bytes_spec(
            width,
            height,
            c,
        ),
{
    let bwl = blocks_wide_spec(width, c);
    let bhl = blocks_high_spec(height, c);
    let bpb = c.bytes_per_block as int;
    assert((bwl * bpb) * bhl == bwl * bhl * bpb) by (nonlinear_arith);
}

} // verus!
