//! Capturing the composited frame: the layout of the host-visible buffer that
//! the frame is copied into, and the way back from that buffer to an image.

use vstd::arithmetic::div_mod::{
    lemma_fundamental_div_mod, lemma_fundamental_div_mod_converse, lemma_mod_multiples_basic,
};
use vstd::prelude::*;
use vstd::slice::slice_subrange;

verus! {

/// `size` rounded up to a multiple of `alignment`.
pub open spec fn round_up(size: int, alignment: int) -> int {
    ((size + alignment - 1) / alignment) * alignment
}

/// [`round_up`] gives the least multiple of the alignment that is not below
/// the size.
pub proof fn lemma_round_up_is_least_multiple(size: int, alignment: int)
    requires
        0 <= size,
        0 < alignment,
    ensures
        round_up(size, alignment) % alignment == 0,
        size <= round_up(size, alignment) < size + alignment,
        size % alignment == 0 ==> round_up(size, alignment) == size,
        size % alignment != 0 ==> round_up(size, alignment) == size + alignment - size % alignment,
{
    let x = size + alignment - 1;
    let k = x / alignment;
    lemma_fundamental_div_mod(x, alignment);
    lemma_fundamental_div_mod(size, alignment);
    assert(alignment * k == k * alignment) by (nonlinear_arith);
    lemma_mod_multiples_basic(k, alignment);
    let q = size / alignment;
    let rem = size % alignment;
    assert(alignment * q == q * alignment) by (nonlinear_arith);
    if rem == 0 {
        // x == q * alignment + (alignment - 1)
        lemma_fundamental_div_mod_converse(x, alignment, q, alignment - 1);
    } else {
        // x == (q + 1) * alignment + (rem - 1)
        assert((q + 1) * alignment == q * alignment + alignment) by (nonlinear_arith);
        lemma_fundamental_div_mod_converse(x, alignment, q + 1, rem - 1);
    }
}

/// Rounds `size` up to a multiple of `alignment`, where that multiple exists
/// and fits.
pub fn size_align(size: u64, alignment: u64) -> (aligned: Option<u64>)
    ensures
        aligned.is_some() <==> alignment > 0 && round_up(size as int, alignment as int) <= u64::MAX,
        aligned matches Some(a) ==> a == round_up(size as int, alignment as int),
{
    if alignment == 0 {
        return None;
    }
    proof {
        lemma_round_up_is_least_multiple(size as int, alignment as int);
    }
    let rem = size % alignment;
    if rem == 0 {
        Some(size)
    } else {
        size.checked_add(alignment - rem)
    }
}

/// How a frame of `width` by `height` pixels lies in the buffer it is copied
/// into: every row starts at a multiple of the row alignment, and the whole
/// is a multiple of the buffer alignment.
#[derive(Clone, Copy, Debug, PartialEq, Eq, Structural)]
pub struct CaptureLayout {
    pub width: u32,
    pub height: u32,
    pub bytes_per_pixel: u32,
    /// The bytes of one row that hold pixels.
    pub unpadded_bytes_per_row: u32,
    /// The bytes from the start of one row to the start of the next.
    pub padded_bytes_per_row: u32,
    /// The size of the buffer.
    pub buffer_size: u64,
}

impl CaptureLayout {
    /// The layout of a frame under the two alignments.
    pub open spec fn of(
        width: u32,
        height: u32,
        bytes_per_pixel: u32,
        row_alignment: u32,
        buffer_alignment: u64,
    ) -> CaptureLayout {
        let unpadded = width * bytes_per_pixel;
        let padded = round_up(unpadded, row_alignment as int);
        CaptureLayout {
            width,
            height,
            bytes_per_pixel,
            unpadded_bytes_per_row: unpadded as u32,
            padded_bytes_per_row: padded as u32,
            buffer_size: round_up(padded * height, buffer_alignment as int) as u64,
        }
    }

    /// Whether the layout of such a frame exists: the alignments are not zero,
    /// a padded row can be counted in 32 bits and the buffer in 64.
    pub open spec fn representable(
        width: u32,
        height: u32,
        bytes_per_pixel: u32,
        row_alignment: u32,
        buffer_alignment: u64,
    ) -> bool {
        let padded = round_up(width * bytes_per_pixel, row_alignment as int);
        &&& row_alignment > 0
        &&& buffer_alignment > 0
        &&& padded <= u32::MAX
        &&& round_up(padded * height, buffer_alignment as int) <= u64::MAX
    }

    /// What every layout that [`CaptureLayout::new`] returns satisfies.
    pub open spec fn wf(self) -> bool {
        &&& self.unpadded_bytes_per_row == self.width * self.bytes_per_pixel
        &&& self.unpadded_bytes_per_row <= self.padded_bytes_per_row
        &&& self.padded_bytes_per_row * self.height <= self.buffer_size
        &&& (self.unpadded_bytes_per_row > 0 ==> self.padded_bytes_per_row > 0)
    }

    /// Lays out a frame, or returns `None` where no layout is representable.
    pub fn new(
        width: u32,
        height: u32,
        bytes_per_pixel: u32,
        row_alignment: u32,
        buffer_alignment: u64,
    ) -> (layout: Option<CaptureLayout>)
        ensures
            layout.is_some() <==> Self::representable(
                width,
                height,
                bytes_per_pixel,
                row_alignment,
                buffer_alignment,
            ),
            layout matches Some(l) ==> l == Self::of(
                width,
                height,
                bytes_per_pixel,
                row_alignment,
                buffer_alignment,
            ) && l.wf(),
    {
        if row_alignment == 0 || buffer_alignment == 0 {
            return None;
        }
        assert(width * bytes_per_pixel <= 0xffff_ffff * 0xffff_ffff) by (nonlinear_arith)
            requires
                0 <= width <= 0xffff_ffff,
                0 <= bytes_per_pixel <= 0xffff_ffff,
        ;
        let unpadded: u64 = width as u64 * bytes_per_pixel as u64;
        proof {
            lemma_round_up_is_least_multiple(unpadded as int, row_alignment as int);
        }
        let padded: u64 = match size_align(unpadded, row_alignment as u64) {
            Some(p) => p,
            None => { return None; },
        };
        if padded > u32::MAX as u64 {
            return None;
        }
        assert(padded * height <= 0xffff_ffff * 0xffff_ffff) by (nonlinear_arith)
            requires
                0 <= padded <= 0xffff_ffff,
                0 <= height <= 0xffff_ffff,
        ;
        let rows: u64 = padded * height as u64;
        proof {
            lemma_round_up_is_least_multiple(rows as int, buffer_alignment as int);
        }
        match size_align(rows, buffer_alignment) {
            Some(buffer_size) => Some(
                CaptureLayout {
                    width,
                    height,
                    bytes_per_pixel,
                    unpadded_bytes_per_row: unpadded as u32,
                    padded_bytes_per_row: padded as u32,
                    buffer_size,
                },
            ),
            None => None,
        }
    }
}

/// The first `rows` rows of `data`, each cut down from `padded` bytes to its
/// first `unpadded` bytes, one after the other.
pub open spec fn unpadded_rows(data: Seq<u8>, padded: int, unpadded: int, rows: nat) -> Seq<u8>
    decreases rows,
{
    if rows == 0 {
        Seq::empty()
    } else {
        unpadded_rows(data, padded, unpadded, (rows - 1) as nat) + data.subrange(
            (rows - 1) * padded,
            (rows - 1) * padded + unpadded,
        )
    }
}

/// Unpadding keeps `unpadded` bytes of every row, and byte `j` of row `i`
/// is byte `j` of the `i`-th padded row.
pub proof fn lemma_unpadded_rows(data: Seq<u8>, padded: int, unpadded: int, rows: nat)
    requires
        0 <= unpadded <= padded,
        rows * padded <= data.len(),
    ensures
        unpadded_rows(data, padded, unpadded, rows).len() == rows * unpadded,
        forall|i: int, j: int|
            0 <= i < rows && 0 <= j < unpadded ==> #[trigger] unpadded_rows(
                data,
                padded,
                unpadded,
                rows,
            )[row_start(i, unpadded) + j] == data[#[trigger] row_start(i, padded) + j],
    decreases rows,
{
    if rows > 0 {
        let before = (rows - 1) as nat;
        assert(rows * padded == before * padded + padded) by (nonlinear_arith)
            requires
                before == rows - 1,
        ;
        assert(rows * unpadded == before * unpadded + unpadded) by (nonlinear_arith)
            requires
                before == rows - 1,
        ;
        assert(0 <= before * padded) by (nonlinear_arith)
            requires
                0 <= before,
                0 <= padded,
        ;
        lemma_unpadded_rows(data, padded, unpadded, before);
        let out = unpadded_rows(data, padded, unpadded, rows);
        let head = unpadded_rows(data, padded, unpadded, before);
        assert forall|i: int, j: int| 0 <= i < rows && 0 <= j < unpadded implies #[trigger] out[row_start(
            i,
            unpadded,
        ) + j] == data[#[trigger] row_start(i, padded) + j] by {
            if i < before {
                assert((i + 1) * unpadded <= before * unpadded) by (nonlinear_arith)
                    requires
                        i + 1 <= before,
                        0 <= unpadded,
                ;
                assert((i + 1) * unpadded == i * unpadded + unpadded) by (nonlinear_arith);
                assert(0 <= i * unpadded) by (nonlinear_arith)
                    requires
                        0 <= i,
                        0 <= unpadded,
                ;
                assert(out[row_start(i, unpadded) + j] == head[row_start(i, unpadded) + j]);
            }
        }
    }
}

/// How many whole rows of `padded` bytes a buffer of `len` bytes holds.
pub open spec fn whole_rows(len: nat, padded: int) -> nat {
    (len as int / padded) as nat
}

/// The offset at which row `i` starts when rows are `stride` bytes apart.
pub open spec fn row_start(i: int, stride: int) -> int {
    i * stride
}

/// Drops the padding of every whole row of `data`: of each `padded` bytes it
/// keeps the first `unpadded`. Bytes after the last whole row are dropped.
pub fn unpad_rows(data: &[u8], padded: usize, unpadded: usize) -> (pixels: Vec<u8>)
    requires
        0 < padded,
        unpadded <= padded,
    ensures
        pixels@ == unpadded_rows(
            data@,
            padded as int,
            unpadded as int,
            whole_rows(data@.len(), padded as int),
        ),
{
    let rows: usize = data.len() / padded;
    proof {
        lemma_fundamental_div_mod(data@.len() as int, padded as int);
        assert(padded * rows == rows * padded) by (nonlinear_arith);
    }
    let mut pixels: Vec<u8> = Vec::new();
    let mut row: usize = 0;
    while row < rows
        invariant
            0 < padded,
            unpadded <= padded,
            row <= rows,
            rows * padded <= data@.len() <= usize::MAX,
            pixels@ == unpadded_rows(data@, padded as int, unpadded as int, row as nat),
        decreases rows - row,
    {
        proof {
            assert((row + 1) * padded <= rows * padded) by (nonlinear_arith)
                requires
                    row + 1 <= rows,
                    0 <= padded,
            ;
            assert((row + 1) * padded == row * padded + padded) by (nonlinear_arith);
            assert(0 <= row * padded) by (nonlinear_arith)
                requires
                    0 <= row,
                    0 <= padded,
            ;
        }
        let start: usize = row * padded;
        let chunk = slice_subrange(data, start, start + unpadded);
        let ghost before = pixels@;
        pixels.extend_from_slice(chunk);
        assert(pixels@ =~= before + chunk@);
        row = row + 1;
    }
    pixels
}

/// An image of four bytes per pixel, rows from the top, without padding.
#[derive(Debug, PartialEq, Eq)]
pub struct PixelBuffer {
    pub width: u32,
    pub height: u32,
    pub bytes: Vec<u8>,
}

/// Builds an image by `image::RgbaImage::from_vec`, and takes it apart again
/// into its dimensions and its bytes.
///
/// The image crate accepts a buffer that holds at least four bytes for each
/// of `width` times `height` pixels, and keeps the dimensions and the buffer
/// as they were given; it refuses a shorter buffer, and one whose needed
/// length cannot be counted in a `usize`.
#[verifier::external_body]
fn rgba_image_from_vec(width: u32, height: u32, buf: Vec<u8>) -> (made: Option<PixelBuffer>)
    ensures
        made.is_some() == (4 * width <= usize::MAX && 4 * width * height <= buf@.len()),
        made matches Some(i) ==> i.width == width && i.height == height && i.bytes@ == buf@,
{
    image::RgbaImage::from_vec(width, height, buf).map(
        |image| PixelBuffer { width: image.width(), height: image.height(), bytes: image.into_raw() },
    )
}

/// The image that a mapped capture buffer holds.
///
/// The padding of every row is dropped; what is left is the image if it
/// holds four bytes for every pixel of the frame. Where it holds fewer, the
/// layout's rows have no length or are shorter than their pixels, or four
/// times the width cannot be counted in a `usize`, there is no image.
pub fn capture(mapped: &[u8], layout: &CaptureLayout) -> (image: Option<PixelBuffer>)
    ensures
        image.is_some() <==> {
            &&& 0 < layout.padded_bytes_per_row
            &&& layout.unpadded_bytes_per_row <= layout.padded_bytes_per_row
            &&& 4 * layout.width <= usize::MAX
            &&& 4 * layout.width * layout.height <= whole_rows(
                mapped@.len(),
                layout.padded_bytes_per_row as int,
            ) * layout.unpadded_bytes_per_row
        },
        image matches Some(i) ==> {
            &&& i.width == layout.width
            &&& i.height == layout.height
            &&& i.bytes@ == unpadded_rows(
                mapped@,
                layout.padded_bytes_per_row as int,
                layout.unpadded_bytes_per_row as int,
                whole_rows(mapped@.len(), layout.padded_bytes_per_row as int),
            )
        },
{
    if layout.padded_bytes_per_row == 0 || layout.unpadded_bytes_per_row
        > layout.padded_bytes_per_row {
        return None;
    }
    let padded: usize = layout.padded_bytes_per_row as usize;
    let unpadded: usize = layout.unpadded_bytes_per_row as usize;
    let pixels = unpad_rows(mapped, padded, unpadded);
    proof {
        let rows = mapped@.len() as int / padded as int;
        lemma_fundamental_div_mod(mapped@.len() as int, padded as int);
        assert(padded * rows == rows * padded) by (nonlinear_arith);
        lemma_unpadded_rows(mapped@, padded as int, unpadded as int, rows as nat);
    }
    rgba_image_from_vec(layout.width, layout.height, pixels)
}

/// A frame of four bytes per pixel that was copied into a buffer of its
/// layout comes back with the frame's own dimensions and with rows of
/// `width` times four bytes each: the buffer holds `height` whole rows, and
/// row `y` of the image is the start of row `y` of the buffer. This needs a
/// buffer alignment that is no larger than a padded row.
pub proof fn lemma_capture_round_trip(
    mapped: Seq<u8>,
    width: u32,
    height: u32,
    row_alignment: u32,
    buffer_alignment: u64,
)
    requires
        CaptureLayout::representable(width, height, 4, row_alignment, buffer_alignment),
        0 < width,
        buffer_alignment <= round_up(width * 4, row_alignment as int),
        mapped.len() == CaptureLayout::of(
            width,
            height,
            4,
            row_alignment,
            buffer_alignment,
        ).buffer_size,
    ensures
        ({
            let layout = CaptureLayout::of(width, height, 4, row_alignment, buffer_alignment);
            let image = unpadded_rows(
                mapped,
                layout.padded_bytes_per_row as int,
                layout.unpadded_bytes_per_row as int,
                whole_rows(mapped.len(), layout.padded_bytes_per_row as int),
            );
            &&& layout.wf()
            &&& layout.unpadded_bytes_per_row == width * 4
            &&& whole_rows(mapped.len(), layout.padded_bytes_per_row as int) == height
            &&& image.len() == width * height * 4
            &&& forall|y: int|
                0 <= y < height ==> (#[trigger] image.subrange(
                    y * (width * 4),
                    y * (width * 4) + width * 4,
                )) == mapped.subrange(
                    y * layout.padded_bytes_per_row,
                    y * layout.padded_bytes_per_row + width * 4,
                )
        }),
{
    let layout = CaptureLayout::of(width, height, 4, row_alignment, buffer_alignment);
    lemma_round_up_is_least_multiple(width * 4, row_alignment as int);
    let padded = round_up(width * 4, row_alignment as int);
    let unpadded = width * 4;
    assert(0 <= padded * height) by (nonlinear_arith)
        requires
            0 <= padded,
            0 <= height,
    ;
    lemma_round_up_is_least_multiple(padded * height, buffer_alignment as int);
    let len = mapped.len() as int;
    let rows = height as int;
    assert(padded * rows == rows * padded) by (nonlinear_arith);
    lemma_fundamental_div_mod_converse(len, padded, rows, len - rows * padded);
    lemma_unpadded_rows(mapped, padded, unpadded, rows as nat);
    assert(rows * unpadded == width * height * 4) by (nonlinear_arith)
        requires
            unpadded == width * 4,
            rows == height,
    ;
    let out = unpadded_rows(mapped, padded, unpadded, rows as nat);
    assert forall|y: int| 0 <= y < rows implies (#[trigger] out.subrange(
        y * (width * 4),
        y * (width * 4) + width * 4,
    )) == mapped.subrange(y * padded, y * padded + width * 4) by {
        assert((y + 1) * unpadded <= rows * unpadded) by (nonlinear_arith)
            requires
                y + 1 <= rows,
                0 <= unpadded,
        ;
        assert((y + 1) * unpadded == y * unpadded + unpadded) by (nonlinear_arith);
        assert((y + 1) * padded <= rows * padded) by (nonlinear_arith)
            requires
                y + 1 <= rows,
                0 <= padded,
        ;
        assert((y + 1) * padded == y * padded + padded) by (nonlinear_arith);
        assert(0 <= y * unpadded) by (nonlinear_arith)
            requires
                0 <= y,
                0 <= unpadded,
        ;
        assert(0 <= y * padded) by (nonlinear_arith)
            requires
                0 <= y,
                0 <= padded,
        ;
        let a = out.subrange(y * unpadded, y * unpadded + unpadded);
        let b = mapped.subrange(y * padded, y * padded + unpadded);
        assert forall|j: int| 0 <= j < unpadded implies a[j] == b[j] by {
            assert(out[row_start(y, unpadded) + j] == mapped[row_start(y, padded) + j]);
        }
        assert(a =~= b);
    }
}

} // verus!
