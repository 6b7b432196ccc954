//! Pixels that are read back from a device.

use vstd::arithmetic::div_mod::{lemma_fundamental_div_mod, lemma_fundamental_div_mod_converse};
use vstd::arithmetic::mul::{lemma_mul_inequality, lemma_mul_is_distributive_add_other_way};
use vstd::prelude::*;

verus! {

/// The bytes of an RGBA pixel.
pub const RGBA_BYTES: u32 = 4;

/// Rows of a buffer that a texture is copied to.
#[derive(Debug, Clone, Copy, PartialEq, Eq, Structural)]
pub struct ReadbackLayout {
    pub unpadded_bytes_per_row: u32,
    /// The distance between rows, a multiple of the alignment.
    pub padded_bytes_per_row: u32,
    pub buffer_size: u32,
}

/// The least multiple of `align` that is not below `size`.
pub open spec fn aligned(size: int, align: int) -> int {
    ((size + align - 1) / align) * align
}

/// What it means to be the least multiple that is not below a size.
pub proof fn lemma_aligned(size: int, align: int)
    requires
        size >= 0,
        align > 0,
    ensures
        size <= aligned(size, align) < size + align,
        aligned(size, align) % align == 0,
{
    let parts = (size + align - 1) / align;
    lemma_fundamental_div_mod(size + align - 1, align);
    assert(size <= parts * align < size + align) by (nonlinear_arith)
        requires
            size + align - 1 == align * parts + (size + align - 1) % align,
            0 <= (size + align - 1) % align < align,
    ;
    vstd::arithmetic::div_mod::lemma_mod_multiples_basic(parts, align);
}

/// Lays out a buffer for a texture of RGBA pixels.
pub fn readback_layout(width: u32, height: u32, align: u32) -> (layout: ReadbackLayout)
    requires
        align > 0,
        width * RGBA_BYTES + align <= u32::MAX,
        aligned(width * RGBA_BYTES, align as int) * height <= u32::MAX,
    ensures
        layout.unpadded_bytes_per_row == width * RGBA_BYTES,
        layout.unpadded_bytes_per_row == 4 * width,
        layout.padded_bytes_per_row == aligned(width * RGBA_BYTES, align as int),
        layout.buffer_size == aligned(width * RGBA_BYTES, align as int) * height,
{
    let unpadded: u32 = width * RGBA_BYTES;
    proof {
        lemma_aligned(unpadded as int, align as int);
    }
    let padded: u32 = ((unpadded + (align - 1)) / align) * align;
    ReadbackLayout {
        unpadded_bytes_per_row: unpadded,
        padded_bytes_per_row: padded,
        buffer_size: padded * height,
    }
}

/// The rows of a buffer without their padding, one after the other.
pub open spec fn without_padding(mapped: Seq<u8>, row_bytes: int, padded: int, rows: int) -> Seq<
    u8,
> {
    Seq::new(
        (rows * row_bytes) as nat,
        |k: int| mapped[(k / row_bytes) * padded + k % row_bytes],
    )
}

/// Takes the padding out of a buffer's rows.
pub fn strip_row_padding(mapped: &[u8], row_bytes: usize, padded: usize, rows: usize) -> (packed:
    Vec<u8>)
    requires
        0 < row_bytes <= padded,
        rows * padded <= mapped@.len(),
    ensures
        packed@ == without_padding(mapped@, row_bytes as int, padded as int, rows as int),
{
    let mut packed: Vec<u8> = Vec::new();
    let bytes: usize = mapped.len();
    let mut row: usize = 0;
    let mut start: usize = 0;
    proof {
        assert(0 * row_bytes == 0 && 0 * padded == 0) by (nonlinear_arith);
    }
    while row < rows
        invariant
            0 < row_bytes <= padded,
            rows * padded <= bytes,
            bytes == mapped@.len(),
            row <= rows,
            start == row * padded,
            packed@.len() == row * row_bytes,
            forall|k: int|
                0 <= k < row * row_bytes ==> #[trigger] packed@[k] == mapped@[(k / row_bytes as int)
                    * padded + k % row_bytes as int],
        decreases rows - row,
    {
        proof {
            lemma_mul_is_distributive_add_other_way(padded as int, row as int, 1);
            lemma_mul_is_distributive_add_other_way(row_bytes as int, row as int, 1);
            lemma_mul_inequality((row + 1) as int, rows as int, padded as int);
        }
        let mut column: usize = 0;
        while column < row_bytes
            invariant
                0 < row_bytes <= padded,
                start == row * padded,
                start + padded <= bytes,
                bytes == mapped@.len(),
                column <= row_bytes,
                packed@.len() == row * row_bytes + column,
                forall|k: int|
                    0 <= k < row * row_bytes + column ==> #[trigger] packed@[k] == mapped@[(k
                        / row_bytes as int) * padded + k % row_bytes as int],
            decreases row_bytes - column,
        {
            proof {
                lemma_fundamental_div_mod_converse(
                    row * row_bytes + column,
                    row_bytes as int,
                    row as int,
                    column as int,
                );
            }
            packed.push(mapped[start + column]);
            column = column + 1;
        }
        row = row + 1;
        start = start + padded;
    }
    assert(packed@ =~= without_padding(mapped@, row_bytes as int, padded as int, rows as int));
    packed
}

/// Tightly packed RGBA pixels that were read back from a render target.
#[derive(Debug, Clone, PartialEq, Eq)]
pub struct WgpuOffscreenReadback {
    pub width: u32,
    pub height: u32,
    pub rgba: Vec<u8>,
}

impl WgpuOffscreenReadback {
    /// Where a pixel's bytes begin.
    pub open spec fn offset(self, x: u32, y: u32) -> int {
        (y * self.width + x) * 4
    }

    /// The bytes of the pixel at `(x, y)`.
    pub fn pixel(&self, x: u32, y: u32) -> (pixel: [u8; 4])
        requires
            self.offset(x, y) + 4 <= self.rgba@.len(),
        ensures
            pixel@ == self.rgba@.subrange(self.offset(x, y), self.offset(x, y) + 4),
    {
        let bytes: usize = self.rgba.len();
        proof {
            assert(0 <= y * self.width) by (nonlinear_arith);
        }
        let offset: usize = (y as usize * self.width as usize + x as usize) * 4;
        let pixel: [u8; 4] = [
            self.rgba[offset],
            self.rgba[offset + 1],
            self.rgba[offset + 2],
            self.rgba[offset + 3],
        ];
        assert(pixel@ =~= self.rgba@.subrange(self.offset(x, y), self.offset(x, y) + 4));
        pixel
    }
}

/// A pixel that is read back is the one that the device wrote at the same
/// place, whatever the padding between its rows.
pub proof fn lemma_pixel_survives_readback(
    mapped: Seq<u8>,
    width: u32,
    height: u32,
    padded: int,
    x: u32,
    y: u32,
    channel: int,
)
    requires
        x < width,
        y < height,
        0 <= channel < RGBA_BYTES,
        padded >= width * RGBA_BYTES,
    ensures
        ({
            let row_bytes = width * RGBA_BYTES;
            let packed = without_padding(mapped, row_bytes, padded, height as int);
            &&& (y * width + x) * 4 + channel < packed.len()
            &&& packed[(y * width + x) * 4 + channel] == mapped[y * padded + x * RGBA_BYTES
                + channel]
        }),
{
    let row_bytes = width * RGBA_BYTES;
    let column = x * RGBA_BYTES + channel;
    assert((y * width + x) * 4 + channel == y * row_bytes + column) by (nonlinear_arith)
        requires
            row_bytes == width * 4,
            column == x * 4 + channel,
    ;
    lemma_mul_inequality((y + 1) as int, height as int, row_bytes);
    lemma_mul_is_distributive_add_other_way(row_bytes, y as int, 1);
    lemma_fundamental_div_mod_converse(y * row_bytes + column, row_bytes, y as int, column);
    assert(0 <= y * row_bytes) by (nonlinear_arith)
        requires
            row_bytes >= 0,
            y >= 0,
    ;
}

} // verus!
