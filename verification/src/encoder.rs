//! The bitmap encoder: packs a pixel grid into the byte image of an
//! uncompressed 24-bit bitmap file.
//!
//! The file is a fixed 54-byte header followed by the pixel rows in y order,
//! each pixel written blue-green-red, each row followed by width % 4 zero
//! bytes of padding.  Two quirks of the layout are deliberate and kept as
//! contracts: the file-size field counts 54 + width * height * 3 bytes and so
//! omits the padding, and the padding rule is width % 4 rather than the
//! row-to-a-multiple-of-four-bytes rule.

use vstd::prelude::*;

use crate::frame::Colour;
use crate::frame::Frame;
use crate::frame::lemma_row_major_index_in_range;

verus! {

/// The lowest byte of a non-negative value's little-endian encoding.
pub open spec fn le_byte0(v: int) -> u8 {
    (v % 256) as u8
}

/// The second byte of a non-negative value's little-endian encoding.
pub open spec fn le_byte1(v: int) -> u8 {
    ((v / 256) % 256) as u8
}

/// The third byte of a non-negative value's little-endian encoding.
pub open spec fn le_byte2(v: int) -> u8 {
    ((v / 65536) % 256) as u8
}

/// The fourth byte of a non-negative value's little-endian encoding.
pub open spec fn le_byte3(v: int) -> u8 {
    ((v / 16777216) % 256) as u8
}

/// The 4-byte little-endian encoding of a value (exact for values up to
/// u32::MAX).
pub open spec fn le4(v: int) -> Seq<u8> {
    seq![le_byte0(v), le_byte1(v), le_byte2(v), le_byte3(v)]
}

/// The 54-byte bitmap file header for the given dimensions: the "BM"
/// signature, the file-size field (padding bytes omitted), the pixel-data
/// offset 54, then the 40-byte info header with the dimensions, one colour
/// plane, 24 bits per pixel, no compression, and a fixed 11811
/// pixels-per-meter resolution placeholder.
pub open spec fn header_bytes(width: usize, height: usize) -> Seq<u8> {
    let size = 54 + width * height * 3;
    seq![
        66u8,
        77u8,
        le_byte0(size),
        le_byte1(size),
        le_byte2(size),
        le_byte3(size),
        0u8,
        0u8,
        0u8,
        0u8,
        54u8,
        0u8,
        0u8,
        0u8,
        40u8,
        0u8,
        0u8,
        0u8,
        le_byte0(width as int),
        le_byte1(width as int),
        le_byte2(width as int),
        le_byte3(width as int),
        le_byte0(height as int),
        le_byte1(height as int),
        le_byte2(height as int),
        le_byte3(height as int),
        1u8,
        0u8,
        24u8,
        0u8,
        0u8,
        0u8,
        0u8,
        0u8,
        0u8,
        0u8,
        0u8,
        0u8,
        35u8,
        46u8,
        0u8,
        0u8,
        35u8,
        46u8,
        0u8,
        0u8,
        0u8,
        0u8,
        0u8,
        0u8,
        0u8,
        0u8,
        0u8,
        0u8,
    ]
}

/// The three bytes a pixel contributes, in the format's native blue, green,
/// red channel order.
pub open spec fn pixel_bytes(c: Colour) -> Seq<u8> {
    seq![c.blue, c.green, c.red]
}

/// n zero bytes.
pub open spec fn zero_bytes(n: int) -> Seq<u8> {
    Seq::new(n as nat, |i: int| 0u8)
}

/// Appends the 4-byte little-endian encoding of `v`.
fn push_le4(out: &mut Vec<u8>, v: u32)
    ensures
        final(out)@ == old(out)@ + le4(v as int),
{
    out.push((v % 256) as u8);
    out.push(((v / 256) % 256) as u8);
    out.push(((v / 65536) % 256) as u8);
    out.push(((v / 16777216) % 256) as u8);
    proof {
        assert(out@ =~= old(out)@ + le4(v as int));
    }
}

/// Builds the fixed 54-byte header for a width * height, 24-bit bitmap.
/// The dimension bounds keep every header field exact in its 4 bytes.
pub fn return_header(width: usize, height: usize) -> (header: Vec<u8>)
    requires
        width <= u32::MAX,
        height <= u32::MAX,
        54 + width * height * 3 <= u32::MAX,
    ensures
        header@ == header_bytes(width, height),
        header@.len() == 54,
{
    let filesize: u32 = 54 + (width as u32) * (height as u32) * 3;
    let mut header: Vec<u8> = Vec::new();
    header.push(66);
    header.push(77);
    push_le4(&mut header, filesize);
    push_le4(&mut header, 0);
    push_le4(&mut header, 54);
    push_le4(&mut header, 40);
    push_le4(&mut header, width as u32);
    push_le4(&mut header, height as u32);
    header.push(1);
    header.push(0);
    header.push(24);
    header.push(0);
    push_le4(&mut header, 0);
    push_le4(&mut header, 0);
    push_le4(&mut header, 11811);
    push_le4(&mut header, 11811);
    push_le4(&mut header, 0);
    push_le4(&mut header, 0);
    proof {
        assert(header@ =~= header_bytes(width, height));
    }
    header
}

impl Frame {
    /// Padding appended after each row, as implemented: width % 4 zero bytes.
    pub open spec fn row_padding(self) -> int {
        (self.width as int) % 4
    }

    /// The bytes of the first x pixels of row y, three bytes each.
    pub open spec fn row_pixel_bytes(self, y: int, x: int) -> Seq<u8>
        decreases x,
    {
        if x <= 0 {
            Seq::empty()
        } else {
            self.row_pixel_bytes(y, x - 1) + pixel_bytes(self.pixel(x - 1, y))
        }
    }

    /// One complete row of the pixel data: its pixels, then the padding.
    pub open spec fn row_bytes(self, y: int) -> Seq<u8> {
        self.row_pixel_bytes(y, self.width as int) + zero_bytes(self.row_padding())
    }

    /// The pixel data of the first y rows, in y order.
    pub open spec fn rows_bytes(self, y: int) -> Seq<u8>
        decreases y,
    {
        if y <= 0 {
            Seq::empty()
        } else {
            self.rows_bytes(y - 1) + self.row_bytes(y - 1)
        }
    }

    /// The complete bitmap file image of this frame: header, then every row.
    pub open spec fn encoding(self) -> Seq<u8> {
        header_bytes(self.width, self.height) + self.rows_bytes(self.height as int)
    }

    /// Serializes the frame: the 54-byte header, then each row's pixels in
    /// blue-green-red order followed by the row padding.
    pub fn encode(&self) -> (out: Vec<u8>)
        requires
            self.wf(),
            self.width <= u32::MAX,
            self.height <= u32::MAX,
            54 + self.width * self.height * 3 <= u32::MAX,
        ensures
            out@ == self.encoding(),
    {
        let mut out: Vec<u8> = return_header(self.width, self.height);
        let width: usize = self.width;
        let height: usize = self.height;
        let padding: usize = width % 4;
        let mut y: usize = 0;
        while y < height
            invariant
                self.wf(),
                width == self.width,
                height == self.height,
                padding == width % 4,
                y <= height,
                out@ == header_bytes(width, height) + self.rows_bytes(y as int),
            decreases height - y,
        {
            let mut x: usize = 0;
            while x < width
                invariant
                    self.wf(),
                    width == self.width,
                    height == self.height,
                    x <= width,
                    y < height,
                    out@ == header_bytes(width, height) + self.rows_bytes(y as int)
                        + self.row_pixel_bytes(y as int, x as int),
                decreases width - x,
            {
                proof {
                    lemma_row_major_index_in_range(
                        width as int,
                        height as int,
                        x as int,
                        y as int,
                    );
                    assert(self.pixel_arr.len() == self.pixel_arr@.len());
                }
                let index: usize = y * width + x;
                let colour: Colour = self.pixel_arr[index];
                out.push(colour.blue);
                out.push(colour.green);
                out.push(colour.red);
                proof {
                    assert(self.row_pixel_bytes(y as int, x as int + 1) == self.row_pixel_bytes(
                        y as int,
                        x as int,
                    ) + pixel_bytes(self.pixel(x as int, y as int)));
                    assert(out@ =~= header_bytes(width, height) + self.rows_bytes(y as int)
                        + self.row_pixel_bytes(y as int, x as int + 1));
                }
                x = x + 1;
            }
            let mut k: usize = 0;
            while k < padding
                invariant
                    self.wf(),
                    width == self.width,
                    height == self.height,
                    padding == width % 4,
                    k <= padding,
                    y < height,
                    out@ == header_bytes(width, height) + self.rows_bytes(y as int)
                        + self.row_pixel_bytes(y as int, width as int) + zero_bytes(k as int),
                decreases padding - k,
            {
                out.push(0);
                proof {
                    assert(zero_bytes(k as int + 1) =~= zero_bytes(k as int).push(0u8));
                    assert(out@ =~= header_bytes(width, height) + self.rows_bytes(y as int)
                        + self.row_pixel_bytes(y as int, width as int) + zero_bytes(
                        k as int + 1,
                    ));
                }
                k = k + 1;
            }
            proof {
                assert(self.rows_bytes(y as int + 1) == self.rows_bytes(y as int) + self.row_bytes(
                    y as int,
                ));
                assert(out@ =~= header_bytes(width, height) + self.rows_bytes(y as int + 1));
            }
            y = y + 1;
        }
        out
    }
}

/// The bytes of x pixels of a row are 3 * x bytes.
pub proof fn lemma_row_pixel_bytes_len(f: Frame, y: int, x: int)
    requires
        x >= 0,
    ensures
        f.row_pixel_bytes(y, x).len() == 3 * x,
    decreases x,
{
    if x > 0 {
        lemma_row_pixel_bytes_len(f, y, x - 1);
    }
}

/// The pixel data of y rows is y * (3 * width + padding) bytes.
pub proof fn lemma_rows_bytes_len(f: Frame, y: int)
    requires
        y >= 0,
    ensures
        f.rows_bytes(y).len() == y * (3 * f.width + f.row_padding()),
    decreases y,
{
    if y > 0 {
        lemma_rows_bytes_len(f, y - 1);
        lemma_row_pixel_bytes_len(f, y - 1, f.width as int);
        assert(f.row_bytes(y - 1).len() == 3 * f.width + f.row_padding());
        assert(y * (3 * f.width + f.row_padding()) == (y - 1) * (3 * f.width + f.row_padding()) + (
        3 * f.width + f.row_padding())) by (nonlinear_arith);
    } else {
        assert(0 * (3 * f.width + f.row_padding()) == 0) by (nonlinear_arith);
    }
}

/// The encoder's byte layout, read back from the produced sequence: it opens
/// with the "BM" signature, the file-size field holds 54 + width * height * 3
/// (padding omitted), the field at offset 10 holds the pixel-data offset 54,
/// the fields at offsets 18 and 22 hold width and height little-endian, and
/// the total length is 54 + height * (3 * width + padding).
pub proof fn lemma_encoding_layout(f: Frame)
    ensures
        f.encoding().len() == 54 + f.height * (3 * f.width + f.row_padding()),
        f.encoding()[0] == 66,
        f.encoding()[1] == 77,
        f.encoding().subrange(2, 6) == le4(54 + f.width * f.height * 3),
        f.encoding().subrange(10, 14) == le4(54),
        f.encoding().subrange(18, 22) == le4(f.width as int),
        f.encoding().subrange(22, 26) == le4(f.height as int),
{
    lemma_rows_bytes_len(f, f.height as int);
    assert(header_bytes(f.width, f.height).len() == 54);
    assert(f.encoding().subrange(2, 6) =~= le4(54 + f.width * f.height * 3));
    assert(f.encoding().subrange(10, 14) =~= le4(54));
    assert(f.encoding().subrange(18, 22) =~= le4(f.width as int));
    assert(f.encoding().subrange(22, 26) =~= le4(f.height as int));
}

/// With width 0 every row is empty (no pixels, and padding 0 % 4 == 0), so
/// the pixel data of any number of such rows is empty.
proof fn lemma_rows_bytes_empty_width(f: Frame, y: int)
    requires
        f.width == 0,
        y >= 0,
    ensures
        f.rows_bytes(y) == Seq::<u8>::empty(),
    decreases y,
{
    if y > 0 {
        lemma_rows_bytes_empty_width(f, y - 1);
        assert(f.row_bytes(y - 1) =~= Seq::<u8>::empty());
        assert(f.rows_bytes(y) =~= Seq::<u8>::empty());
    }
}

/// Boundary behaviour: a frame with width 0 or height 0 encodes to exactly
/// its valid 54-byte header, with no pixel bytes appended.
pub proof fn lemma_degenerate_dims_header_only(f: Frame)
    requires
        f.width == 0 || f.height == 0,
    ensures
        f.encoding() == header_bytes(f.width, f.height),
        f.encoding().len() == 54,
{
    if f.height == 0 {
        assert(f.rows_bytes(0) == Seq::<u8>::empty());
    } else {
        lemma_rows_bytes_empty_width(f, f.height as int);
    }
    assert(f.encoding() =~= header_bytes(f.width, f.height));
    assert(header_bytes(f.width, f.height).len() == 54);
}

/// The encoding is a function of the frame value alone, so encoding an
/// unmodified frame twice yields byte-identical output.
pub proof fn lemma_encoding_deterministic(f: Frame, first: Seq<u8>, second: Seq<u8>)
    requires
        first == f.encoding(),
        second == f.encoding(),
    ensures
        first == second,
{
}

} // verus!
