//! The screen-capture feed: pixels in, PNG bytes out.
//!
//! The platform capture routine hands over raw BGRA pixel rows with a row
//! stride; the feed reorders every pixel to RGBA — never reinterpreting the
//! buffer — and re-encodes losslessly as PNG, ready for the QR decoding
//! strategy.  The capture itself, and whether the platform offers one at
//! all, stays with the caller.

use vstd::prelude::*;

use vstd::arithmetic::mul::lemma_mul_inequality;

verus! {

/// The four RGBA bytes of the BGRA pixel starting at `off`.
pub open spec fn pixel_rgba(raw: Seq<u8>, off: int) -> Seq<u8> {
    seq![raw[off + 2], raw[off + 1], raw[off], raw[off + 3]]
}

/// The RGBA bytes of the first `ncols` pixels of row `row`.
pub open spec fn row_rgba(raw: Seq<u8>, row: int, ncols: int, stride: int) -> Seq<u8>
    decreases ncols,
{
    if ncols <= 0 {
        Seq::empty()
    } else {
        row_rgba(raw, row, ncols - 1, stride) + pixel_rgba(raw, row * stride + (ncols - 1) * 4)
    }
}

/// The RGBA bytes of the first `nrows` rows, each `width` pixels wide.
pub open spec fn image_rgba(raw: Seq<u8>, nrows: int, width: int, stride: int) -> Seq<u8>
    decreases nrows,
{
    if nrows <= 0 {
        Seq::empty()
    } else {
        image_rgba(raw, nrows - 1, width, stride) + row_rgba(raw, nrows - 1, width, stride)
    }
}

/// A row holds four bytes per pixel.
pub proof fn lemma_row_rgba_len(raw: Seq<u8>, row: int, ncols: int, stride: int)
    ensures
        ncols >= 0 ==> row_rgba(raw, row, ncols, stride).len() == 4 * ncols,
    decreases ncols,
{
    if ncols > 0 {
        lemma_row_rgba_len(raw, row, ncols - 1, stride);
    }
}

/// An image holds four bytes per pixel.
pub proof fn lemma_image_rgba_len(raw: Seq<u8>, nrows: int, width: int, stride: int)
    ensures
        nrows >= 0 && width >= 0 ==> image_rgba(raw, nrows, width, stride).len() == 4 * nrows
            * width,
    decreases nrows,
{
    if nrows > 0 && width >= 0 {
        lemma_image_rgba_len(raw, nrows - 1, width, stride);
        lemma_row_rgba_len(raw, nrows - 1, width, stride);
        assert(image_rgba(raw, nrows, width, stride) == image_rgba(raw, nrows - 1, width, stride)
            + row_rgba(raw, nrows - 1, width, stride));
        assert(image_rgba(raw, nrows - 1, width, stride).len() == 4 * (nrows - 1) * width);
        assert(row_rgba(raw, nrows - 1, width, stride).len() == 4 * width);
        assert(4 * (nrows - 1) * width + 4 * width == 4 * nrows * width) by (nonlinear_arith);
        assert(image_rgba(raw, nrows, width, stride).len() == 4 * nrows * width);
    } else if nrows == 0 {
        assert(4 * nrows * width == 0) by (nonlinear_arith)
            requires
                nrows == 0,
        ;
    }
}

/// Reorders a BGRA buffer with a row stride into a tight RGBA buffer,
/// pixel by pixel.
pub fn bgra_to_rgba(raw: &[u8], width: usize, height: usize, stride: usize) -> (r: Vec<u8>)
    requires
        4 * width <= stride,
        height * stride <= raw@.len(),
    ensures
        r@ == image_rgba(raw@, height as int, width as int, stride as int),
{
    let rlen: usize = raw.len();
    let mut out: Vec<u8> = Vec::new();
    let mut row: usize = 0;
    while row < height
        invariant
            row <= height,
            4 * width <= stride,
            rlen == raw@.len(),
            height * stride <= rlen,
            out@ == image_rgba(raw@, row as int, width as int, stride as int),
        decreases height - row,
    {
        proof {
            lemma_mul_inequality(row + 1, height as int, stride as int);
            assert((row + 1) * (stride as int) == row as int * stride as int + stride as int)
                by (nonlinear_arith);
        }
        let base: usize = row * stride;
        let mut col: usize = 0;
        while col < width
            invariant
                col <= width,
                row < height,
                4 * width <= stride,
                rlen == raw@.len(),
                height * stride <= rlen,
                base == row * stride,
                base + stride <= raw@.len(),
                out@ == image_rgba(raw@, row as int, width as int, stride as int) + row_rgba(
                    raw@,
                    row as int,
                    col as int,
                    stride as int,
                ),
            decreases width - col,
        {
            assert(4 * col + 4 <= 4 * width);
            let off: usize = base + 4 * col;
            assert(off + 4 <= base + stride);
            out.push(raw[off + 2]);
            out.push(raw[off + 1]);
            out.push(raw[off]);
            out.push(raw[off + 3]);
            proof {
                assert(out@ =~= image_rgba(raw@, row as int, width as int, stride as int)
                    + (row_rgba(raw@, row as int, col as int, stride as int) + pixel_rgba(
                    raw@,
                    row as int * stride as int + col as int * 4,
                )));
            }
            col = col + 1;
        }
        row = row + 1;
        proof {
            assert(out@ == image_rgba(raw@, row as int, width as int, stride as int));
        }
    }
    out
}

/// What PNG-encoding a tight RGBA buffer of the given dimensions yields: a
/// pure function of pixels and dimensions (the encode is deterministic).
pub uninterp spec fn png_of(pixels: Seq<u8>, width: nat, height: nat) -> Seq<u8>;

/// Relies on `image::codecs::png::PngEncoder` and
/// `image::ImageEncoder::write_image`: a lossless, deterministic encoding of
/// an RGBA8 buffer whose length matches the dimensions (the length check is
/// the encoder's own panic condition, excluded by `requires`).  The encoder
/// refuses only a zero width or height; writing to a vector cannot fail.
#[verifier::external_body]
fn png_encode_rgba(pixels: &[u8], width: u32, height: u32) -> (r: Option<Vec<u8>>)
    requires
        pixels@.len() == 4 * width * height,
    ensures
        1 <= width && 1 <= height ==> r is Some,
        match r {
            Some(b) => b@ == png_of(pixels@, width as nat, height as nat),
            None => true,
        },
{
    let mut out: Vec<u8> = Vec::new();
    let encoder = image::codecs::png::PngEncoder::new(std::io::Cursor::new(&mut out));
    match image::ImageEncoder::write_image(
        encoder,
        pixels,
        width,
        height,
        image::ExtendedColorType::Rgba8,
    ) {
        Ok(()) => Some(out),
        Err(_) => None,
    }
}

/// Re-encodes captured BGRA pixel rows as a PNG image, reordering each pixel
/// to RGBA first.
///
/// Success is owed for every image with at least one pixel; only an empty
/// rectangle comes back as `None`, which the caller reports as its
/// platform's capture failure.
pub fn to_png(raw: &[u8], width: usize, height: usize, stride: usize) -> (r: Option<Vec<u8>>)
    requires
        4 * width <= stride,
        height * stride <= raw@.len(),
        width <= u32::MAX,
        height <= u32::MAX,
    ensures
        1 <= width && 1 <= height ==> r is Some,
        match r {
            Some(b) => b@ == png_of(
                image_rgba(raw@, height as int, width as int, stride as int),
                width as nat,
                height as nat,
            ),
            None => true,
        },
{
    let rgba = bgra_to_rgba(raw, width, height, stride);
    proof {
        lemma_image_rgba_len(raw@, height as int, width as int, stride as int);
        assert(4 * (height as int) * (width as int) == 4 * (width as int) * (height as int))
            by (nonlinear_arith);
    }
    png_encode_rgba(rgba.as_slice(), width as u32, height as u32)
}

} // verus!
