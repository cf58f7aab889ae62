//! The frame encoder: a pure transformation from a 128x32 24-bit RGB
//! image to the controller's page-packed 1-bit screen buffer.
//!
//! Each output byte covers one vertical strip of 8 pixels: byte
//! `page * 128 + column` holds rows `page * 8 .. page * 8 + 8` of pixel
//! column `column`, with bit `7 - r` standing for row `r` of the page
//! (bit 7 is the topmost row of the strip, bit 0 the bottommost). A bit
//! is set when the pixel's luminance, computed as `r/3 + g/3 + b/3` with
//! each channel truncated separately, strictly exceeds 127.
use vstd::prelude::*;
use crate::{BUFFER_LEN, WIDTH, HEIGHT, PAGES, ROWS_PER_PAGE};

verus! {

/// Pixel layout of a decoded image. Only `Rgb24` (one 8-bit triplet per
/// pixel, row-major) is accepted by the encoder.
#[derive(Clone, Copy, PartialEq, Eq, Structural, Debug)]
pub enum PixelFormat {
    Grayscale,
    Rgb24,
    Indexed,
    GrayscaleAlpha,
    Rgba32,
}

impl PixelFormat {
    /// Bytes per pixel in a flat row-major buffer of this layout.
    pub open spec fn bytes_per_pixel(self) -> int {
        match self {
            PixelFormat::Grayscale => 1,
            PixelFormat::Rgb24 => 3,
            PixelFormat::Indexed => 1,
            PixelFormat::GrayscaleAlpha => 2,
            PixelFormat::Rgba32 => 4,
        }
    }
}

/// Why an image was rejected before any buffer was produced.
#[derive(Clone, Copy, PartialEq, Eq, Structural, Debug)]
pub enum FrameError {
    /// The image is not exactly 128x32 pixels.
    UnsupportedGeometry,
    /// The image is 128x32 but not in the 24-bit RGB layout.
    UnsupportedFormat,
}

/// A decoded image: dimensions, pixel layout, and the flat row-major
/// pixel buffer. The encoder only reads it.
pub struct Image {
    pub width: u32,
    pub height: u32,
    pub format: PixelFormat,
    pub data: Vec<u8>,
}

impl Image {
    /// The pixel buffer covers the full image for its layout.
    pub open spec fn wf(self) -> bool {
        self.data@.len() == self.width * self.height * self.format.bytes_per_pixel()
    }

    /// The one geometry and layout the encoder accepts.
    pub open spec fn is_supported(self) -> bool {
        &&& self.width == WIDTH
        &&& self.height == HEIGHT
        &&& self.format == PixelFormat::Rgb24
    }

    /// The error owed to an unsupported image: geometry is checked before
    /// the pixel layout.
    pub open spec fn rejection(self) -> FrameError {
        if self.width != WIDTH || self.height != HEIGHT {
            FrameError::UnsupportedGeometry
        } else {
            FrameError::UnsupportedFormat
        }
    }
}

/// Index of the first channel byte of the pixel at `row`, `col` in a flat
/// row-major 24-bit RGB buffer.
pub open spec fn pixel_index(row: int, col: int) -> int {
    3 * (row * WIDTH + col)
}

/// Luminance of one pixel: each channel is divided by 3 first (truncating),
/// then the three quotients are summed, so the result is at most 255.
pub open spec fn luminance(r: u8, g: u8, b: u8) -> int {
    r as int / 3 + g as int / 3 + b as int / 3
}

/// A pixel renders lit when its luminance strictly exceeds 127.
pub open spec fn pixel_on(pix: Seq<u8>, row: int, col: int) -> bool {
    luminance(
        pix[pixel_index(row, col)],
        pix[pixel_index(row, col) + 1],
        pix[pixel_index(row, col) + 2],
    ) > 127
}

/// The output bit standing for row `r` of a page: bit `7 - r`, so the
/// topmost row of the strip is the most significant bit.
pub open spec fn row_mask(r: int) -> u8 {
    if r == 0 { 0x80 }
    else if r == 1 { 0x40 }
    else if r == 2 { 0x20 }
    else if r == 3 { 0x10 }
    else if r == 4 { 0x08 }
    else if r == 5 { 0x04 }
    else if r == 6 { 0x02 }
    else { 0x01 }
}

/// The packed byte for `page` and `col` built from the first `n` rows of
/// the strip: row `r`'s bit is set exactly when its pixel is lit.
pub open spec fn frame_byte_upto(pix: Seq<u8>, page: int, col: int, n: int) -> u8
    decreases n,
{
    if n <= 0 {
        0
    } else {
        frame_byte_upto(pix, page, col, n - 1) |
            (if pixel_on(pix, page * ROWS_PER_PAGE + (n - 1), col) { row_mask(n - 1) } else { 0 })
    }
}

/// The packed output byte for one page and column: all 8 rows of the strip.
pub open spec fn frame_byte(pix: Seq<u8>, page: int, col: int) -> u8 {
    frame_byte_upto(pix, page, col, ROWS_PER_PAGE as int)
}

/// `out` is the page-packed encoding of the 128x32 RGB pixel bytes `pix`:
/// 512 bytes, laid out page-major, byte `i` covering page `i / 128`,
/// column `i % 128`.
pub open spec fn is_encoding(out: Seq<u8>, pix: Seq<u8>) -> bool {
    &&& out.len() == BUFFER_LEN
    &&& forall|i: int| 0 <= i < BUFFER_LEN ==>
            (#[trigger] out[i]) == frame_byte(pix, i / (WIDTH as int), i % (WIDTH as int))
}

fn row_mask_at(r: usize) -> (m: u8)
    requires
        r < ROWS_PER_PAGE,
    ensures
        m == row_mask(r as int),
{
    if r == 0 { 0x80 }
    else if r == 1 { 0x40 }
    else if r == 2 { 0x20 }
    else if r == 3 { 0x10 }
    else if r == 4 { 0x08 }
    else if r == 5 { 0x04 }
    else if r == 6 { 0x02 }
    else { 0x01 }
}

fn packed_byte(img: &Image, page: usize, col: usize) -> (b: u8)
    requires
        img.wf(),
        img.is_supported(),
        page < PAGES,
        col < WIDTH,
    ensures
        b == frame_byte(img.data@, page as int, col as int),
{
    let mut b: u8 = 0;
    let mut r: usize = 0;
    while r < ROWS_PER_PAGE
        invariant
            img.wf(),
            img.is_supported(),
            page < PAGES,
            col < WIDTH,
            r <= ROWS_PER_PAGE,
            b == frame_byte_upto(img.data@, page as int, col as int, r as int),
        decreases ROWS_PER_PAGE - r,
    {
        let row = page * ROWS_PER_PAGE + r;
        let base = 3 * (row * WIDTH + col);
        proof {
            assert((img.width as int) * (img.height as int) * 3 == 12288) by (nonlinear_arith)
                requires
                    img.width == 128,
                    img.height == 32,
            ;
            assert(img.data@.len() == 12288);
        }
        let red = img.data[base];
        let green = img.data[base + 1];
        let blue = img.data[base + 2];
        let lum = red / 3 + green / 3 + blue / 3;
        if lum > 127 {
            b = b | row_mask_at(r);
        } else {
            proof {
                assert(b | 0u8 == b) by (bit_vector);
            }
        }
        r = r + 1;
    }
    b
}

/// Convert a validated 128x32 24-bit RGB image into the 512-byte
/// page-packed screen buffer. Any other geometry is rejected as
/// `UnsupportedGeometry`, any other pixel layout of a 128x32 image as
/// `UnsupportedFormat`, and no buffer is produced; a supported image
/// always yields its full encoding.
pub fn encode_frame(img: &Image) -> (r: Result<Vec<u8>, FrameError>)
    requires
        img.wf(),
    ensures
        match r {
            Ok(buf) => img.is_supported() && is_encoding(buf@, img.data@),
            Err(e) => !img.is_supported() && e == img.rejection(),
        },
{
    if img.width != WIDTH as u32 || img.height != HEIGHT as u32 {
        return Err(FrameError::UnsupportedGeometry);
    }
    if !(matches!(img.format, PixelFormat::Rgb24)) {
        return Err(FrameError::UnsupportedFormat);
    }
    let mut out: Vec<u8> = Vec::new();
    let mut page: usize = 0;
    while page < PAGES
        invariant
            img.wf(),
            img.is_supported(),
            page <= PAGES,
            out@.len() == page * WIDTH,
            forall|i: int| 0 <= i < out@.len() ==>
                (#[trigger] out@[i]) == frame_byte(img.data@, i / (WIDTH as int), i % (WIDTH as int)),
        decreases PAGES - page,
    {
        let mut col: usize = 0;
        while col < WIDTH
            invariant
                img.wf(),
                img.is_supported(),
                page < PAGES,
                col <= WIDTH,
                out@.len() == page * WIDTH + col,
                forall|i: int| 0 <= i < out@.len() ==>
                    (#[trigger] out@[i]) == frame_byte(img.data@, i / (WIDTH as int), i % (WIDTH as int)),
            decreases WIDTH - col,
        {
            let b = packed_byte(img, page, col);
            proof {
                vstd::arithmetic::div_mod::lemma_fundamental_div_mod_converse(
                    page * WIDTH + col, WIDTH as int, page as int, col as int);
            }
            out.push(b);
            col = col + 1;
        }
        page = page + 1;
    }
    Ok(out)
}

/// The encoder is deterministic: the encoding is a function of the pixel
/// bytes alone, so two buffers that both encode the same pixels are
/// byte-identical.
pub proof fn lemma_encoding_deterministic(pix: Seq<u8>, a: Seq<u8>, b: Seq<u8>)
    requires
        is_encoding(a, pix),
        is_encoding(b, pix),
    ensures
        a == b,
{
    assert(a =~= b);
}

proof fn lemma_row_mask_is_shift(r: int)
    requires
        0 <= r < 8,
    ensures
        row_mask(r) == (0x80u8 >> (r as u8)),
{
    if r == 0 { assert(0x80u8 >> 0u8 == 0x80u8) by (bit_vector); }
    else if r == 1 { assert(0x80u8 >> 1u8 == 0x40u8) by (bit_vector); }
    else if r == 2 { assert(0x80u8 >> 2u8 == 0x20u8) by (bit_vector); }
    else if r == 3 { assert(0x80u8 >> 3u8 == 0x10u8) by (bit_vector); }
    else if r == 4 { assert(0x80u8 >> 4u8 == 0x08u8) by (bit_vector); }
    else if r == 5 { assert(0x80u8 >> 5u8 == 0x04u8) by (bit_vector); }
    else if r == 6 { assert(0x80u8 >> 6u8 == 0x02u8) by (bit_vector); }
    else { assert(0x80u8 >> 7u8 == 0x01u8) by (bit_vector); }
}

proof fn lemma_row_masks_disjoint(a: int, b: int)
    requires
        0 <= a < 8,
        0 <= b < 8,
        a != b,
    ensures
        row_mask(a) & row_mask(b) == 0,
{
    lemma_row_mask_is_shift(a);
    lemma_row_mask_is_shift(b);
    let x = a as u8;
    let y = b as u8;
    assert((0x80u8 >> x) & (0x80u8 >> y) == 0) by (bit_vector)
        requires
            x < 8 && y < 8 && x != y,
    ;
}

proof fn lemma_frame_byte_upto_bit(pix: Seq<u8>, page: int, col: int, n: int, r: int)
    requires
        0 <= r < 8,
        0 <= n <= 8,
    ensures
        r < n ==> frame_byte_upto(pix, page, col, n) & row_mask(r)
            == (if pixel_on(pix, page * ROWS_PER_PAGE + r, col) { row_mask(r) } else { 0u8 }),
        r >= n ==> frame_byte_upto(pix, page, col, n) & row_mask(r) == 0,
    decreases n,
{
    let w = row_mask(r);
    if n == 0 {
        assert(0u8 & w == 0u8) by (bit_vector);
    } else {
        lemma_frame_byte_upto_bit(pix, page, col, n - 1, r);
        let u = frame_byte_upto(pix, page, col, n - 1);
        let lit = pixel_on(pix, page * ROWS_PER_PAGE + (n - 1), col);
        let m: u8 = if lit { row_mask(n - 1) } else { 0u8 };
        assert(frame_byte_upto(pix, page, col, n) == (u | m));
        if r == n - 1 {
            assert(u & w == 0);
            if lit {
                assert((u | w) & w == w) by (bit_vector)
                    requires
                        u & w == 0u8,
                ;
            } else {
                assert((u | 0u8) & w == 0u8) by (bit_vector)
                    requires
                        u & w == 0u8,
                ;
            }
        } else {
            // The new row's contribution leaves bit `r` alone.
            if lit {
                lemma_row_masks_disjoint(n - 1, r);
            } else {
                assert(0u8 & w == 0u8) by (bit_vector);
            }
            assert((u | m) & w == u & w) by (bit_vector)
                requires
                    m & w == 0u8,
            ;
        }
    }
}

/// Bit order within a page strip: in the packed byte for `page` and `col`,
/// the bit standing for row `r` of the page (bit `7 - r`) is set exactly
/// when the pixel at row `page * 8 + r` of column `col` is lit, and the
/// other rows of the strip leave that bit untouched.
pub proof fn lemma_frame_byte_bit(pix: Seq<u8>, page: int, col: int, r: int)
    requires
        0 <= r < ROWS_PER_PAGE,
    ensures
        frame_byte(pix, page, col) & row_mask(r)
            == (if pixel_on(pix, page * ROWS_PER_PAGE + r, col) { row_mask(r) } else { 0u8 }),
{
    lemma_frame_byte_upto_bit(pix, page, col, ROWS_PER_PAGE as int, r);
}

/// Page-and-column form of `is_encoding`: the byte for page `p`, column
/// `c` stands at index `p * 128 + c` and packs that strip's 8 rows.
pub proof fn lemma_encoding_byte(out: Seq<u8>, pix: Seq<u8>, p: int, c: int)
    requires
        is_encoding(out, pix),
        0 <= p < PAGES,
        0 <= c < WIDTH,
    ensures
        out[p * WIDTH + c] == frame_byte(pix, p, c),
{
    vstd::arithmetic::div_mod::lemma_fundamental_div_mod_converse(
        p * WIDTH + c, WIDTH as int, p, c);
}

} // verus!
