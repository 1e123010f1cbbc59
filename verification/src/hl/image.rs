//! Fetched texture and wireframe images: the raw bytes always, and the pixel
//! geometry (row lengths, strides, padding, block layout) checked against the
//! format before any typed view is handed out.
//!
//! A typed view (`&[P]` over the bytes) is a zero-copy cast that the caller
//! makes; what the library decides is which bytes that cast covers, and
//! which error comes instead when the geometry or the element size does not
//! fit the format.

use crate::hl::bytes::Payload;
use crate::hl::error::Error;
use crate::hl::format::{
    CompressedFormat, DepthKind, FormatKind, FormatKindView, format_kind, spec_format_kind,
};
use crate::replay::reply::{TextureRecord, WireframeRecord};
use vstd::prelude::*;
use vstd::slice::slice_subrange;

verus! {

broadcast use vstd::std_specs::vec::group_vec_axioms;

/// Bytes per pixel of the single aspect a format describes: a colour
/// format's stride, or the depth or the stencil part alone of a depth or
/// stencil format. A combined depth+stencil format, a compressed format and
/// an unknown one have no such size.
pub open spec fn spec_aspect_bpp(pixel_format: u32) -> Result<usize, Error> {
    match spec_format_kind(pixel_format) {
        FormatKindView::Color(c) => Ok(c.bytes_per_pixel),
        FormatKindView::DepthStencil(d) => match (d.depth, d.stencil) {
            (Some(DepthKind::Unorm16), None) => Ok(2),
            (Some(DepthKind::Float32), None) => Ok(4),
            (None, Some(_)) => Ok(1),
            _ => Err(Error::WrongCategory("combined depth+stencil is fetched as separate aspects")),
        },
        FormatKindView::Compressed(_) => Err(Error::WrongCategory("compressed: use blocks()")),
        FormatKindView::Unknown => Err(Error::UnknownFormat(pixel_format)),
    }
}

/// The byte count an image of the given geometry spans (`height` rows of
/// `bytes_per_row`), provided each row holds `width` pixels of `bpp` bytes
/// and the payload of `len` bytes holds every row; else `Truncated`.
pub open spec fn spec_checked_len(width: u32, height: u32, bytes_per_row: u32, len: nat, bpp: usize) -> Result<
    usize,
    Error,
> {
    if width * bpp > usize::MAX {
        Err(Error::Truncated)
    } else if bytes_per_row < width * bpp {
        Err(Error::Truncated)
    } else if height * bytes_per_row > usize::MAX {
        Err(Error::Truncated)
    } else if len < height * bytes_per_row {
        Err(Error::Truncated)
    } else {
        Ok((height * bytes_per_row) as usize)
    }
}

/// Typed element access needs whole-byte elements: a colour format whose
/// channels are packed below byte boundaries (such as RGB10A2) has none.
pub open spec fn spec_typed_bpp(pixel_format: u32) -> Result<usize, Error> {
    match spec_format_kind(pixel_format) {
        FormatKindView::Color(c) => if c.byte_aligned {
            Ok(c.bytes_per_pixel)
        } else {
            Err(Error::WrongCategory("packed color format: use raw_bytes()"))
        },
        _ => spec_aspect_bpp(pixel_format),
    }
}

/// The element size of a typed view, provided the format has whole-byte
/// elements and that size equals the requested element size `elem`; else
/// the refusal or the mismatch.
pub open spec fn spec_checked_bpp(pixel_format: u32, elem: usize) -> Result<usize, Error> {
    match spec_typed_bpp(pixel_format) {
        Err(e) => Err(e),
        Ok(bpp) => if elem != bpp {
            Err(Error::FormatMismatch { requested: elem, actual: bpp })
        } else {
            Ok(bpp)
        },
    }
}

/// `h` rows of `row_len` bytes, row `y` read at `y * stride` in `bytes`,
/// laid end to end.
pub open spec fn packed_rows(bytes: Seq<u8>, row_len: int, stride: int, h: int) -> Seq<u8>
    decreases h,
{
    if h <= 0 {
        Seq::empty()
    } else {
        packed_rows(bytes, row_len, stride, h - 1) + bytes.subrange(
            (h - 1) * stride,
            (h - 1) * stride + row_len,
        )
    }
}

/// Rows with no padding between them are the bytes as they stand.
pub proof fn lemma_packed_rows_tight(bytes: Seq<u8>, row_len: int, h: int)
    requires
        0 <= row_len,
        0 <= h,
        h * row_len <= bytes.len(),
    ensures
        packed_rows(bytes, row_len, row_len, h) == bytes.subrange(0, h * row_len),
    decreases h,
{
    if h > 0 {
        assert((h - 1) * row_len + row_len == h * row_len) by (nonlinear_arith);
        assert(0 <= (h - 1) * row_len) by (nonlinear_arith)
            requires
                h >= 1,
                row_len >= 0,
        ;
        lemma_packed_rows_tight(bytes, row_len, h - 1);
        assert(bytes.subrange(0, (h - 1) * row_len) + bytes.subrange(
            (h - 1) * row_len,
            h * row_len,
        ) =~= bytes.subrange(0, h * row_len));
    } else {
        assert(h == 0);
        assert(h * row_len == 0) by (nonlinear_arith)
            requires
                h == 0,
        ;
        assert(bytes.subrange(0, 0) =~= Seq::<u8>::empty());
    }
}

/// A packed copy holds exactly `h` rows of `row_len` bytes.
pub proof fn lemma_packed_rows_len(bytes: Seq<u8>, row_len: int, stride: int, h: int)
    requires
        0 <= row_len <= stride,
        0 <= h,
        h * stride <= bytes.len(),
    ensures
        packed_rows(bytes, row_len, stride, h).len() == h * row_len,
    decreases h,
{
    if h > 0 {
        assert((h - 1) * stride <= h * stride) by (nonlinear_arith)
            requires
                0 <= stride,
                h >= 1,
        ;
        lemma_row_in_bounds(h - 1, stride, row_len, h);
        lemma_packed_rows_len(bytes, row_len, stride, h - 1);
        assert((h - 1) * row_len + row_len == h * row_len) by (nonlinear_arith);
    } else {
        assert(h * row_len == 0) by (nonlinear_arith)
            requires
                h == 0,
        ;
    }
}

/// Row `y` of a strided image lies within its first `y + 1` strides.
proof fn lemma_row_in_bounds(y: int, stride: int, row_len: int, h: int)
    requires
        0 <= y < h,
        0 <= row_len <= stride,
    ensures
        0 <= y * stride,
        y * stride + row_len <= h * stride,
{
    assert(0 <= y * stride) by (nonlinear_arith)
        requires
            0 <= y,
            0 <= stride,
    ;
    assert((y + 1) * stride <= h * stride) by (nonlinear_arith)
        requires
            y + 1 <= h,
            0 <= stride,
    ;
    assert((y + 1) * stride == y * stride + stride) by (nonlinear_arith);
}

/// Bytes to hand out: borrowed from the payload where the layout already is
/// the one asked for, or a tightly packed copy.
pub enum Packed<'a> {
    /// The payload's own bytes.
    Borrowed(&'a [u8]),
    /// A packed copy.
    Owned(Vec<u8>),
}

impl<'a> Packed<'a> {
    /// The bytes held.
    pub open spec fn spec_bytes(&self) -> Seq<u8> {
        match self {
            Packed::Borrowed(b) => b@,
            Packed::Owned(v) => v@,
        }
    }

    /// The bytes held.
    pub fn as_slice(&self) -> (r: &[u8])
        ensures
            r@ == self.spec_bytes(),
    {
        match self {
            Packed::Borrowed(b) => b,
            Packed::Owned(v) => v.as_slice(),
        }
    }
}

/// Copy `h` rows of `row_len` bytes, row `y` at `y * stride`, end to end.
fn pack_rows(bytes: &[u8], row_len: usize, stride: usize, h: usize) -> (out: Vec<u8>)
    requires
        row_len <= stride,
        h * stride <= bytes@.len(),
    ensures
        out@ == packed_rows(bytes@, row_len as int, stride as int, h as int),
{
    let mut out: Vec<u8> = Vec::new();
    let mut y: usize = 0;
    let n = bytes.len();
    while y < h
        invariant
            n == bytes@.len(),
            y <= h,
            row_len <= stride,
            h * stride <= bytes@.len(),
            out@ == packed_rows(bytes@, row_len as int, stride as int, y as int),
        decreases h - y,
    {
        proof {
            lemma_row_in_bounds(y as int, stride as int, row_len as int, h as int);
        }
        let start = y * stride;
        let row = slice_subrange(bytes, start, start + row_len);
        let ghost before = out@;
        let mut i: usize = 0;
        while i < row.len()
            invariant
                i <= row@.len(),
                out@ == before + row@.subrange(0, i as int),
            decreases row@.len() - i,
        {
            out.push(row[i]);
            assert(row@.subrange(0, i as int + 1) =~= row@.subrange(0, i as int).push(row@[i as int]));
            i = i + 1;
        }
        assert(row@.subrange(0, row@.len() as int) =~= row@);
        y = y + 1;
    }
    out
}

/// Every compressed format of the table has a non-empty block of a
/// non-zero byte size.
pub proof fn lemma_compressed_blocks_nonempty(pixel_format: u32)
    ensures
        spec_format_kind(pixel_format) matches FormatKindView::Compressed(c) ==> c.block_bytes > 0
            && c.block.0 > 0 && c.block.1 > 0,
{
}

/// The width in bits of a depth encoding.
pub open spec fn depth_bits(k: DepthKind) -> int {
    match k {
        DepthKind::Unorm16 => 16,
        DepthKind::Float32 => 32,
    }
}

/// The bytes per pixel of a single aspect are the width of what it holds: a
/// depth-only format's are its depth encoding's bits over eight, the same as
/// the format table's stride for it (2 for Depth16Unorm, 4 for
/// Depth32Float); a stencil-only format's are the one byte of its 8-bit
/// stencil, whatever padding the format's own stride carries; a colour
/// format's are its stride.
pub proof fn lemma_aspect_bpp(pixel_format: u32)
    ensures
        spec_format_kind(pixel_format) matches FormatKindView::Color(c) ==> spec_aspect_bpp(
            pixel_format,
        ) == Ok::<usize, Error>(c.bytes_per_pixel),
        spec_format_kind(pixel_format) matches FormatKindView::DepthStencil(d) ==> (d.stencil is None
            && d.depth is Some ==> (spec_aspect_bpp(pixel_format) matches Ok(b) && b * 8 == depth_bits(
            d.depth->0,
        ) && b == d.bytes_per_pixel)),
        spec_format_kind(pixel_format) matches FormatKindView::DepthStencil(d) ==> (d.depth is None
            && d.stencil is Some ==> spec_aspect_bpp(pixel_format) == Ok::<usize, Error>(1)),
{
}

/// Packing keeps exactly the pixels: `width * height` of them, at the
/// aspect's bytes per pixel, whatever the fetched row stride.
pub proof fn lemma_packed_len(
    pixel_format: u32,
    width: u32,
    height: u32,
    bytes_per_row: u32,
    bytes: Seq<u8>,
)
    ensures
        spec_packed_bytes(pixel_format, width, height, bytes_per_row, bytes) matches Ok(p) ==> (
        spec_aspect_bpp(pixel_format) matches Ok(bpp) && p.len() == width * height * bpp),
{
    if let Ok(p) = spec_packed_bytes(pixel_format, width, height, bytes_per_row, bytes) {
        let bpp = spec_aspect_bpp(pixel_format)->Ok_0;
        let row = width * bpp;
        assert(0 <= row) by (nonlinear_arith)
            requires
                row == width * bpp,
                0 <= width,
                0 <= bpp,
        ;
        lemma_packed_rows_len(bytes, row, bytes_per_row as int, height as int);
        assert(height * row == width * height * bpp) by (nonlinear_arith)
            requires
                row == width * bpp,
        ;
    }
}

/// How many bytes a typed pixel view covers: the format must be a
/// byte-aligned colour format or a single depth or stencil aspect, its
/// stride must equal the element size, rows must carry no padding, and the payload must hold
/// every row. Only the rows are covered, never bytes past them.
pub open spec fn spec_pixel_len(
    pixel_format: u32,
    width: u32,
    height: u32,
    bytes_per_row: u32,
    len: nat,
    elem: usize,
) -> Result<usize, Error> {
    match spec_checked_bpp(pixel_format, elem) {
        Err(e) => Err(e),
        Ok(bpp) => if width * bpp > usize::MAX {
            Err(Error::Truncated)
        } else if bytes_per_row != width * bpp {
            Err(Error::Padded { bytes_per_row, row_len: (width * bpp) as u32 })
        } else {
            spec_checked_len(width, height, bytes_per_row, len, bpp)
        },
    }
}

/// The per-row check of a typed row view: the format must have whole-byte
/// elements, the element size must match, and
/// the payload must hold every (possibly padded) row.
pub open spec fn spec_rows_check(
    pixel_format: u32,
    width: u32,
    height: u32,
    bytes_per_row: u32,
    len: nat,
    elem: usize,
) -> Result<usize, Error> {
    match spec_checked_bpp(pixel_format, elem) {
        Err(e) => Err(e),
        Ok(bpp) => match spec_checked_len(width, height, bytes_per_row, len, bpp) {
            Err(e) => Err(e),
            Ok(_) => Ok(bpp),
        },
    }
}

/// A typed pixel view is handed out exactly when the format has whole-byte
/// elements (no packed colour format), the aspect's bytes per pixel equal
/// the element size, rows carry no padding (`bytes_per_row == width *
/// elem`), and the payload holds every row; it then covers exactly the
/// `width * height` pixels, `height * bytes_per_row` bytes.
pub proof fn lemma_pixel_len(
    pixel_format: u32,
    width: u32,
    height: u32,
    bytes_per_row: u32,
    len: nat,
    elem: usize,
)
    ensures
        spec_pixel_len(pixel_format, width, height, bytes_per_row, len, elem) is Ok <==> ({
            &&& !(spec_format_kind(pixel_format) matches FormatKindView::Color(c) && !c.byte_aligned)
            &&& spec_aspect_bpp(pixel_format) == Ok::<usize, Error>(elem)
            &&& bytes_per_row == width * elem
            &&& height * bytes_per_row <= len
            &&& height * bytes_per_row <= usize::MAX
        }),
        spec_pixel_len(pixel_format, width, height, bytes_per_row, len, elem) matches Ok(need) ==> need
            == width * height * elem,
{
    if spec_pixel_len(pixel_format, width, height, bytes_per_row, len, elem) is Ok {
        assert(height * (width * elem) == width * height * elem) by (nonlinear_arith);
    }
}

/// A typed row view is handed out exactly when the format has whole-byte
/// elements, the aspect's bytes per pixel equal the element size, each row
/// of `width` pixels fits its `bytes_per_row`, and the payload holds every
/// row; each row is then `width * elem` bytes.
pub proof fn lemma_rows_check(
    pixel_format: u32,
    width: u32,
    height: u32,
    bytes_per_row: u32,
    len: nat,
    elem: usize,
)
    ensures
        spec_rows_check(pixel_format, width, height, bytes_per_row, len, elem) is Ok <==> ({
            &&& !(spec_format_kind(pixel_format) matches FormatKindView::Color(c) && !c.byte_aligned)
            &&& spec_aspect_bpp(pixel_format) == Ok::<usize, Error>(elem)
            &&& width * elem <= bytes_per_row
            &&& height * bytes_per_row <= len
            &&& height * bytes_per_row <= usize::MAX
            &&& width * elem <= usize::MAX
        }),
        spec_rows_check(pixel_format, width, height, bytes_per_row, len, elem) matches Ok(bpp) ==> bpp
            == elem,
{
}

/// The tightly packed pixels of an image: each row's `width * bpp` bytes,
/// padding dropped.
pub open spec fn spec_packed_bytes(
    pixel_format: u32,
    width: u32,
    height: u32,
    bytes_per_row: u32,
    bytes: Seq<u8>,
) -> Result<Seq<u8>, Error> {
    match spec_aspect_bpp(pixel_format) {
        Err(e) => Err(e),
        Ok(bpp) => match spec_checked_len(width, height, bytes_per_row, bytes.len(), bpp) {
            Err(e) => Err(e),
            Ok(_) => Ok(packed_rows(bytes, width * bpp, bytes_per_row as int, height as int)),
        },
    }
}

/// The pixel geometry shared by textures and wireframes.
struct Image {
    width: u32,
    height: u32,
    bytes_per_row: u32,
    pixel_format: u32,
    payload: Payload,
}

impl Image {
    spec fn spec_len(&self) -> nat {
        self.payload.spec_bytes().len()
    }

    fn format_kind(&self) -> (k: FormatKind)
        ensures
            k@ == spec_format_kind(self.pixel_format),
    {
        format_kind(self.pixel_format)
    }

    fn raw_bytes(&self) -> (r: &[u8])
        ensures
            r@ == self.payload.spec_bytes(),
    {
        self.payload.bytes()
    }

    fn aspect_bpp(&self) -> (r: Result<usize, Error>)
        ensures
            r == spec_aspect_bpp(self.pixel_format),
    {
        match self.format_kind() {
            FormatKind::Color(c) => Ok(c.bytes_per_pixel),
            FormatKind::DepthStencil(d) => match (d.depth, d.stencil) {
                (Some(depth), None) => Ok(
                    match depth {
                        DepthKind::Unorm16 => 2,
                        DepthKind::Float32 => 4,
                    },
                ),
                (None, Some(_)) => Ok(1),
                _ => Err(Error::WrongCategory("combined depth+stencil is fetched as separate aspects")),
            },
            FormatKind::Compressed(_) => Err(Error::WrongCategory("compressed: use blocks()")),
            FormatKind::Unknown => Err(Error::UnknownFormat(self.pixel_format)),
        }
    }

    fn checked_len(&self, bpp: usize) -> (r: Result<usize, Error>)
        ensures
            r == spec_checked_len(self.width, self.height, self.bytes_per_row, self.spec_len(), bpp),
    {
        let row_len = match (self.width as usize).checked_mul(bpp) {
            Some(n) => n,
            None => return Err(Error::Truncated),
        };
        if (self.bytes_per_row as usize) < row_len {
            return Err(Error::Truncated);
        }
        let need = match (self.height as usize).checked_mul(self.bytes_per_row as usize) {
            Some(n) => n,
            None => return Err(Error::Truncated),
        };
        if self.raw_bytes().len() < need {
            return Err(Error::Truncated);
        }
        Ok(need)
    }

    fn checked_bpp(&self, elem: usize) -> (r: Result<usize, Error>)
        ensures
            r == spec_checked_bpp(self.pixel_format, elem),
    {
        if let FormatKind::Color(c) = self.format_kind() {
            if !c.byte_aligned {
                return Err(Error::WrongCategory("packed color format: use raw_bytes()"));
            }
        }
        let bpp = self.aspect_bpp()?;
        if elem != bpp {
            return Err(Error::FormatMismatch { requested: elem, actual: bpp });
        }
        Ok(bpp)
    }

    fn pixel_bytes(&self, elem: usize) -> (r: Result<&[u8], Error>)
        ensures
            match spec_pixel_len(
                self.pixel_format,
                self.width,
                self.height,
                self.bytes_per_row,
                self.spec_len(),
                elem,
            ) {
                Ok(need) => r matches Ok(b) && b@ == self.payload.spec_bytes().subrange(0, need as int),
                Err(e) => r == Err::<&[u8], Error>(e),
            },
    {
        let bpp = self.checked_bpp(elem)?;
        let row_len = match (self.width as usize).checked_mul(bpp) {
            Some(n) => n,
            None => return Err(Error::Truncated),
        };
        if self.bytes_per_row as usize != row_len {
            return Err(Error::Padded { bytes_per_row: self.bytes_per_row, row_len: row_len as u32 });
        }
        let need = self.checked_len(bpp)?;
        Ok(slice_subrange(self.raw_bytes(), 0, need))
    }

    fn row_bytes(&self, elem: usize) -> (r: Result<Vec<&[u8]>, Error>)
        ensures
            match spec_rows_check(
                self.pixel_format,
                self.width,
                self.height,
                self.bytes_per_row,
                self.spec_len(),
                elem,
            ) {
                Ok(bpp) => r matches Ok(rows) && rows@.len() == self.height && forall|y: int|
                    0 <= y < self.height ==> (#[trigger] rows@[y])@ == self.payload.spec_bytes().subrange(
                        y * self.bytes_per_row,
                        y * self.bytes_per_row + self.width * bpp,
                    ),
                Err(e) => r == Err::<Vec<&[u8]>, Error>(e),
            },
    {
        let bpp = self.checked_bpp(elem)?;
        self.checked_len(bpp)?;
        let bpr = self.bytes_per_row as usize;
        let w = self.width as usize;
        let h = self.height as usize;
        let row_len = w * bpp;
        let bytes = self.raw_bytes();
        let mut rows: Vec<&[u8]> = Vec::new();
        let mut y: usize = 0;
        let n = bytes.len();
        while y < h
            invariant
                n == bytes@.len(),
                y <= h,
                h == self.height,
                bpr == self.bytes_per_row,
                row_len == self.width * bpp,
                row_len <= bpr,
                h * bpr <= bytes@.len(),
                bytes@ == self.payload.spec_bytes(),
                rows@.len() == y,
                forall|k: int|
                    0 <= k < y ==> (#[trigger] rows@[k])@ == bytes@.subrange(k * bpr, k * bpr + row_len),
            decreases h - y,
        {
            proof {
                lemma_row_in_bounds(y as int, bpr as int, row_len as int, h as int);
            }
            let start = y * bpr;
            rows.push(slice_subrange(bytes, start, start + row_len));
            y = y + 1;
        }
        Ok(rows)
    }

    fn packed_bytes(&self) -> (r: Result<Packed<'_>, Error>)
        ensures
            match spec_packed_bytes(
                self.pixel_format,
                self.width,
                self.height,
                self.bytes_per_row,
                self.payload.spec_bytes(),
            ) {
                Ok(b) => r matches Ok(p) && p.spec_bytes() == b && (p is Borrowed <==> (spec_aspect_bpp(
                    self.pixel_format,
                ) matches Ok(bpp) && self.bytes_per_row == self.width * bpp)),
                Err(e) => r matches Err(x) && x == e,
            },
    {
        let bpp = self.aspect_bpp()?;
        let need = self.checked_len(bpp)?;
        let row_len = self.width as usize * bpp;
        let bpr = self.bytes_per_row as usize;
        let bytes = self.raw_bytes();
        let h = self.height as usize;
        if bpr == row_len {
            proof {
                lemma_packed_rows_tight(bytes@, row_len as int, h as int);
            }
            return Ok(Packed::Borrowed(slice_subrange(bytes, 0, need)));
        }
        Ok(Packed::Owned(pack_rows(bytes, row_len, bpr, h)))
    }

    fn blocks(&self) -> (r: Result<Blocks<'_>, Error>)
        ensures
            match spec_format_kind(self.pixel_format) {
                FormatKindView::Compressed(c) => r matches Ok(b) && b.spec_data()
                    == self.payload.spec_bytes() && b.spec_block() == c.block && b.spec_block_bytes()
                    == c.block_bytes && b.spec_blocks_per_row() == (self.bytes_per_row as int) / (
                c.block_bytes as int) && b.spec_width() == self.width && b.spec_height() == self.height
                    && c.block_bytes > 0 && c.block.0 > 0 && c.block.1 > 0,
                _ => r matches Err(e) && e == Error::WrongCategory("not a compressed format"),
            },
    {
        proof {
            lemma_compressed_blocks_nonempty(self.pixel_format);
        }
        match self.format_kind() {
            FormatKind::Compressed(c) => Ok(
                Blocks {
                    bytes: self.raw_bytes(),
                    block: c.block,
                    block_bytes: c.block_bytes,
                    blocks_per_row: (self.bytes_per_row as usize) / (c.block_bytes as usize),
                    width: self.width,
                    height: self.height,
                },
            ),
            _ => Err(Error::WrongCategory("not a compressed format")),
        }
    }
}

/// `a / b` rounded up.
pub open spec fn ceil_div(a: int, b: int) -> int {
    a / b + if a % b == 0 {
        0int
    } else {
        1int
    }
}

/// `x`, saturated at `usize::MAX`.
pub open spec fn sat(x: int) -> int {
    if x > usize::MAX {
        usize::MAX as int
    } else {
        x
    }
}

fn div_ceil_usize(a: usize, b: usize) -> (r: usize)
    requires
        b > 0,
    ensures
        r == ceil_div(a as int, b as int),
{
    let q = a / b;
    if a % b == 0 {
        q
    } else {
        assert(q < a) by (nonlinear_arith)
            requires
                q == a / b,
                b > 0,
                a % b != 0,
        ;
        q + 1
    }
}

fn sat_mul(a: usize, b: usize) -> (r: usize)
    ensures
        r == sat(a * b),
{
    match a.checked_mul(b) {
        Some(x) => x,
        None => usize::MAX,
    }
}

/// A compressed texture's fetched blocks.
pub struct Blocks<'a> {
    /// The block data, as fetched.
    pub bytes: &'a [u8],
    /// Texels per block (width, height).
    pub block: (u8, u8),
    /// Bytes per block.
    pub block_bytes: u8,
    /// Blocks per row as fetched (`bytes_per_row / block_bytes`).
    pub blocks_per_row: usize,
    width: u32,
    height: u32,
}

/// The byte count a tightly packed block grid of the given geometry spans:
/// `ceil(width / block.0) * ceil(height / block.1)` blocks of `block_bytes`
/// bytes, saturated.
pub open spec fn spec_expected_len(width: u32, height: u32, block: (u8, u8), block_bytes: u8) -> int {
    sat(
        sat(ceil_div(width as int, block.0 as int) * ceil_div(height as int, block.1 as int))
            * block_bytes,
    )
}

/// The tightly packed blocks of a block grid fetched with `blocks_per_row`
/// blocks per row: each block row's `ceil(width / block.0)` blocks, padding
/// dropped. The payload must hold every fetched row, and a fetched row must
/// be at least as wide as the tight one.
pub open spec fn spec_packed_blocks(
    bytes: Seq<u8>,
    width: u32,
    height: u32,
    block: (u8, u8),
    block_bytes: u8,
    blocks_per_row: usize,
) -> Result<Seq<u8>, Error> {
    let cols = ceil_div(width as int, block.0 as int);
    let rows = ceil_div(height as int, block.1 as int);
    let tight_row = sat(cols * block_bytes);
    let fetched_row = sat(blocks_per_row * block_bytes);
    if fetched_row < tight_row {
        Err(Error::Truncated)
    } else if rows * fetched_row > usize::MAX {
        Err(Error::Truncated)
    } else if bytes.len() < rows * fetched_row {
        Err(Error::Truncated)
    } else if fetched_row == tight_row {
        let expected = spec_expected_len(width, height, block, block_bytes);
        Ok(
            bytes.subrange(
                0,
                if expected < bytes.len() {
                    expected
                } else {
                    bytes.len() as int
                },
            ),
        )
    } else {
        Ok(packed_rows(bytes, tight_row, fetched_row, rows))
    }
}

impl<'a> Blocks<'a> {
    /// The image width in texels.
    pub closed spec fn spec_width(&self) -> u32 {
        self.width
    }

    /// The image height in texels.
    pub closed spec fn spec_height(&self) -> u32 {
        self.height
    }

    /// The block data.
    pub closed spec fn spec_data(&self) -> Seq<u8> {
        self.bytes@
    }

    /// Texels per block.
    pub closed spec fn spec_block(&self) -> (u8, u8) {
        self.block
    }

    /// Bytes per block.
    pub closed spec fn spec_block_bytes(&self) -> u8 {
        self.block_bytes
    }

    /// Blocks per fetched row.
    pub closed spec fn spec_blocks_per_row(&self) -> usize {
        self.blocks_per_row
    }

    /// The fetched block data (the `bytes` field).
    pub fn data(&self) -> (r: &'a [u8])
        ensures
            r@ == self.spec_data(),
    {
        self.bytes
    }

    /// Texels per block (the `block` field).
    pub fn block(&self) -> (r: (u8, u8))
        ensures
            r == self.spec_block(),
    {
        self.block
    }

    /// Bytes per block (the `block_bytes` field).
    pub fn block_bytes(&self) -> (r: u8)
        ensures
            r == self.spec_block_bytes(),
    {
        self.block_bytes
    }

    /// Blocks per fetched row (the `blocks_per_row` field).
    pub fn blocks_per_row(&self) -> (r: usize)
        ensures
            r == self.spec_blocks_per_row(),
    {
        self.blocks_per_row
    }

    /// Expected byte length of the tightly packed block data:
    /// `ceil(width / block.0) * ceil(height / block.1) * block_bytes`,
    /// saturated. Less than a padded fetch's length when the fetched stride
    /// exceeds the tight one.
    pub fn expected_len(&self) -> (r: usize)
        requires
            self.spec_block().0 > 0,
            self.spec_block().1 > 0,
        ensures
            r == spec_expected_len(
                self.spec_width(),
                self.spec_height(),
                self.spec_block(),
                self.spec_block_bytes(),
            ),
    {
        let cols = div_ceil_usize(self.width as usize, self.block.0 as usize);
        let rows = div_ceil_usize(self.height as usize, self.block.1 as usize);
        sat_mul(sat_mul(cols, rows), self.block_bytes as usize)
    }

    /// The tightly packed block data: borrowed when the fetched rows carry no
    /// padding (cut to [`Blocks::expected_len`]), else a copy with each
    /// row's padding dropped.
    pub fn packed_blocks(&self) -> (r: Result<Packed<'a>, Error>)
        requires
            self.spec_block().0 > 0,
            self.spec_block().1 > 0,
        ensures
            match spec_packed_blocks(
                self.spec_data(),
                self.spec_width(),
                self.spec_height(),
                self.spec_block(),
                self.spec_block_bytes(),
                self.spec_blocks_per_row(),
            ) {
                Ok(b) => r matches Ok(p) && p.spec_bytes() == b && (p is Borrowed <==> sat(
                    self.spec_blocks_per_row() * self.spec_block_bytes(),
                ) == sat(
                    ceil_div(self.spec_width() as int, self.spec_block().0 as int)
                        * self.spec_block_bytes(),
                )),
                Err(e) => r matches Err(x) && x == e,
            },
    {
        let block_bytes = self.block_bytes as usize;
        let cols = div_ceil_usize(self.width as usize, self.block.0 as usize);
        let rows = div_ceil_usize(self.height as usize, self.block.1 as usize);
        let tight_row = sat_mul(cols, block_bytes);
        let fetched_row = sat_mul(self.blocks_per_row, block_bytes);
        if fetched_row < tight_row {
            return Err(Error::Truncated);
        }
        let need = match rows.checked_mul(fetched_row) {
            Some(n) => n,
            None => return Err(Error::Truncated),
        };
        if self.bytes.len() < need {
            return Err(Error::Truncated);
        }
        if fetched_row == tight_row {
            let expected = self.expected_len();
            let end = if expected < self.bytes.len() {
                expected
            } else {
                self.bytes.len()
            };
            return Ok(Packed::Borrowed(slice_subrange(self.bytes, 0, end)));
        }
        Ok(Packed::Owned(pack_rows(self.bytes, tight_row, fetched_row, rows)))
    }
}

/// A fetched texture. Raw bytes always; the pixel geometry checked on demand.
pub struct Texture {
    stream_ref: u64,
    depth: u32,
    bytes_per_image: u32,
    plane: u32,
    slice: u32,
    level: u32,
    image: Image,
}

impl Texture {
    /// The texture's stream reference.
    pub closed spec fn spec_stream_ref(&self) -> u64 {
        self.stream_ref
    }

    /// Width in pixels.
    pub closed spec fn spec_width(&self) -> u32 {
        self.image.width
    }

    /// Height in pixels.
    pub closed spec fn spec_height(&self) -> u32 {
        self.image.height
    }

    /// Depth (1 for a 2D texture).
    pub closed spec fn spec_depth(&self) -> u32 {
        self.depth
    }

    /// Stride between rows, in bytes, as fetched.
    pub closed spec fn spec_bytes_per_row(&self) -> u32 {
        self.image.bytes_per_row
    }

    /// Stride between images of a 3D texture, in bytes.
    pub closed spec fn spec_bytes_per_image(&self) -> u32 {
        self.bytes_per_image
    }

    /// The fetched plane.
    pub closed spec fn spec_plane(&self) -> u32 {
        self.plane
    }

    /// The fetched slice.
    pub closed spec fn spec_slice(&self) -> u32 {
        self.slice
    }

    /// The fetched mip level.
    pub closed spec fn spec_level(&self) -> u32 {
        self.level
    }

    /// The raw `MTLPixelFormat` code.
    pub closed spec fn spec_pixel_format(&self) -> u32 {
        self.image.pixel_format
    }

    /// The fetched bytes.
    pub closed spec fn spec_raw_bytes(&self) -> Seq<u8> {
        self.image.payload.spec_bytes()
    }

    /// Builds a texture from a fetched record and its payload.
    pub fn from_parts(r: &TextureRecord, payload: Payload) -> (t: Texture)
        ensures
            t.spec_stream_ref() == r.stream_ref,
            t.spec_depth() == r.depth,
            t.spec_bytes_per_image() == r.bytes_per_image,
            t.spec_plane() == r.plane,
            t.spec_slice() == r.slice,
            t.spec_level() == r.level,
            t.spec_width() == r.width,
            t.spec_height() == r.height,
            t.spec_bytes_per_row() == r.bytes_per_row,
            t.spec_pixel_format() == r.pixel_format,
            t.spec_raw_bytes() == payload.spec_bytes(),
    {
        Texture {
            stream_ref: r.stream_ref as u64,
            depth: r.depth as u32,
            bytes_per_image: r.bytes_per_image,
            plane: r.plane,
            slice: r.slice,
            level: r.level,
            image: Image {
                width: r.width,
                height: r.height as u32,
                bytes_per_row: r.bytes_per_row,
                pixel_format: r.pixel_format,
                payload,
            },
        }
    }

    /// A 2D texture of the given geometry and format (depth 1, plane, slice
    /// and level 0, no image stride).
    pub fn for_test(stream_ref: u64, width: u32, height: u16, bpr: u32, fmt: u32, payload: Payload) -> (t: Texture)
        ensures
            t.spec_stream_ref() == stream_ref,
            t.spec_depth() == 1,
            t.spec_bytes_per_image() == 0,
            t.spec_plane() == 0,
            t.spec_slice() == 0,
            t.spec_level() == 0,
            t.spec_width() == width,
            t.spec_height() == height,
            t.spec_bytes_per_row() == bpr,
            t.spec_pixel_format() == fmt,
            t.spec_raw_bytes() == payload.spec_bytes(),
    {
        Texture {
            stream_ref,
            depth: 1,
            bytes_per_image: 0,
            plane: 0,
            slice: 0,
            level: 0,
            image: Image { width, height: height as u32, bytes_per_row: bpr, pixel_format: fmt, payload },
        }
    }

    /// A one-pixel RGBA8 texture carrying the given provenance fields.
    pub fn for_test_provenance(
        depth: u32,
        bytes_per_image: u32,
        plane: u32,
        slice: u32,
        level: u32,
        payload: Payload,
    ) -> (t: Texture)
        ensures
            t.spec_stream_ref() == 0,
            t.spec_depth() == depth,
            t.spec_bytes_per_image() == bytes_per_image,
            t.spec_plane() == plane,
            t.spec_slice() == slice,
            t.spec_level() == level,
            t.spec_width() == 1,
            t.spec_height() == 1,
            t.spec_bytes_per_row() == 4,
            t.spec_pixel_format() == 70,
            t.spec_raw_bytes() == payload.spec_bytes(),
    {
        Texture {
            stream_ref: 0,
            depth,
            bytes_per_image,
            plane,
            slice,
            level,
            image: Image { width: 1, height: 1, bytes_per_row: 4, pixel_format: 70, payload },
        }
    }

    /// The stream reference this texture was fetched for.
    pub fn stream_ref(&self) -> (r: u64)
        ensures
            r == self.spec_stream_ref(),
    {
        self.stream_ref
    }

    /// Width in pixels.
    pub fn width(&self) -> (r: u32)
        ensures
            r == self.spec_width(),
    {
        self.image.width
    }

    /// Height in pixels.
    pub fn height(&self) -> (r: u32)
        ensures
            r == self.spec_height(),
    {
        self.image.height
    }

    /// Depth (1 for a 2D texture).
    pub fn depth(&self) -> (r: u32)
        ensures
            r == self.spec_depth(),
    {
        self.depth
    }

    /// Stride between rows, in bytes, as fetched (may exceed the packed row
    /// length).
    pub fn bytes_per_row(&self) -> (r: u32)
        ensures
            r == self.spec_bytes_per_row(),
    {
        self.image.bytes_per_row
    }

    /// Stride between images of a 3D texture, in bytes.
    pub fn bytes_per_image(&self) -> (r: u32)
        ensures
            r == self.spec_bytes_per_image(),
    {
        self.bytes_per_image
    }

    /// The plane fetched (a depth or stencil aspect, or a YCbCr plane).
    pub fn plane(&self) -> (r: u32)
        ensures
            r == self.spec_plane(),
    {
        self.plane
    }

    /// The array slice fetched.
    pub fn slice(&self) -> (r: u32)
        ensures
            r == self.spec_slice(),
    {
        self.slice
    }

    /// The mip level fetched.
    pub fn level(&self) -> (r: u32)
        ensures
            r == self.spec_level(),
    {
        self.level
    }

    /// The raw `MTLPixelFormat` code.
    pub fn pixel_format(&self) -> (r: u32)
        ensures
            r == self.spec_pixel_format(),
    {
        self.image.pixel_format
    }

    /// The structural format the pixel format code describes.
    pub fn format_kind(&self) -> (k: FormatKind)
        ensures
            k@ == spec_format_kind(self.spec_pixel_format()),
    {
        self.image.format_kind()
    }

    /// The fetched bytes, never altered.
    pub fn raw_bytes(&self) -> (r: &[u8])
        ensures
            r@ == self.spec_raw_bytes(),
    {
        self.image.raw_bytes()
    }

    /// The bytes a typed view of `elem_size`-byte pixels covers (see
    /// [`spec_pixel_len`]): exactly the rows, never bytes past them.
    pub fn pixel_bytes(&self, elem_size: usize) -> (r: Result<&[u8], Error>)
        ensures
            match spec_pixel_len(
                self.spec_pixel_format(),
                self.spec_width(),
                self.spec_height(),
                self.spec_bytes_per_row(),
                self.spec_raw_bytes().len(),
                elem_size,
            ) {
                Ok(need) => r matches Ok(b) && b@ == self.spec_raw_bytes().subrange(0, need as int),
                Err(e) => r == Err::<&[u8], Error>(e),
            },
    {
        self.image.pixel_bytes(elem_size)
    }

    /// Each row's bytes for a typed view of `elem_size`-byte pixels: row `y`
    /// is the `width * elem_size` bytes at `y * bytes_per_row`.
    pub fn row_bytes(&self, elem_size: usize) -> (r: Result<Vec<&[u8]>, Error>)
        ensures
            match spec_rows_check(
                self.spec_pixel_format(),
                self.spec_width(),
                self.spec_height(),
                self.spec_bytes_per_row(),
                self.spec_raw_bytes().len(),
                elem_size,
            ) {
                Ok(bpp) => r matches Ok(rows) && rows@.len() == self.spec_height() && forall|y: int|
                    0 <= y < self.spec_height() ==> (#[trigger] rows@[y])@
                        == self.spec_raw_bytes().subrange(
                        y * self.spec_bytes_per_row(),
                        y * self.spec_bytes_per_row() + self.spec_width() * bpp,
                    ),
                Err(e) => r == Err::<Vec<&[u8]>, Error>(e),
            },
    {
        self.image.row_bytes(elem_size)
    }

    /// The fetched blocks of a compressed texture.
    pub fn blocks(&self) -> (r: Result<Blocks<'_>, Error>)
        ensures
            match spec_format_kind(self.spec_pixel_format()) {
                FormatKindView::Compressed(c) => r matches Ok(b) && b.spec_data()
                    == self.spec_raw_bytes() && b.spec_block() == c.block && b.spec_block_bytes()
                    == c.block_bytes && b.spec_blocks_per_row() == (self.spec_bytes_per_row() as int)
                    / (c.block_bytes as int) && b.spec_width() == self.spec_width() && b.spec_height()
                    == self.spec_height() && c.block_bytes > 0 && c.block.0 > 0 && c.block.1 > 0,
                _ => r matches Err(e) && e == Error::WrongCategory("not a compressed format"),
            },
    {
        self.image.blocks()
    }

    /// The tightly packed pixels of the fetched aspect: borrowed when the
    /// rows carry no padding, else a copy with each row's padding dropped.
    pub fn packed_bytes(&self) -> (r: Result<Packed<'_>, Error>)
        ensures
            match spec_packed_bytes(
                self.spec_pixel_format(),
                self.spec_width(),
                self.spec_height(),
                self.spec_bytes_per_row(),
                self.spec_raw_bytes(),
            ) {
                Ok(b) => r matches Ok(p) && p.spec_bytes() == b && (p is Borrowed <==> (spec_aspect_bpp(
                    self.spec_pixel_format(),
                ) matches Ok(bpp) && self.spec_bytes_per_row() == self.spec_width() * bpp)),
                Err(e) => r matches Err(x) && x == e,
            },
    {
        self.image.packed_bytes()
    }
}

/// The bytes per pixel a wireframe's rows are laid out with: the format's
/// stride, or 0 for a format without one.
pub open spec fn wire_bpp(pixel_format: u32) -> int {
    match spec_format_kind(pixel_format) {
        FormatKindView::Color(c) => c.bytes_per_pixel as int,
        FormatKindView::DepthStencil(d) => d.bytes_per_pixel as int,
        _ => 0,
    }
}

/// A fetched wireframe image (one draw's geometry rasterized).
pub struct Wireframe {
    dispatch_uid: u32,
    image: Image,
}

impl Wireframe {
    /// The draw's dispatch uid.
    pub closed spec fn spec_dispatch_uid(&self) -> u32 {
        self.dispatch_uid
    }

    /// Width in pixels.
    pub closed spec fn spec_width(&self) -> u32 {
        self.image.width
    }

    /// Height in pixels.
    pub closed spec fn spec_height(&self) -> u32 {
        self.image.height
    }

    /// Stride between rows, in bytes.
    pub closed spec fn spec_bytes_per_row(&self) -> u32 {
        self.image.bytes_per_row
    }

    /// The raw `MTLPixelFormat` code.
    pub closed spec fn spec_pixel_format(&self) -> u32 {
        self.image.pixel_format
    }

    /// The fetched bytes.
    pub closed spec fn spec_raw_bytes(&self) -> Seq<u8> {
        self.image.payload.spec_bytes()
    }

    /// Builds a wireframe from a fetched record and its payload. Its rows
    /// are tightly packed: `width` pixels of the format's stride.
    pub fn from_parts(r: &WireframeRecord, payload: Payload) -> (w: Wireframe)
        requires
            r.width * wire_bpp(r.pixel_format) <= u32::MAX,
        ensures
            w.spec_dispatch_uid() == r.dispatch_uid,
            w.spec_width() == r.width,
            w.spec_height() == r.height,
            w.spec_bytes_per_row() == r.width * wire_bpp(r.pixel_format),
            w.spec_pixel_format() == r.pixel_format,
            w.spec_raw_bytes() == payload.spec_bytes(),
    {
        let bpp: u32 = match format_kind(r.pixel_format).bytes_per_pixel() {
            Some(n) => if n <= u32::MAX as usize {
                n as u32
            } else {
                // Only reachable with a zero width, whose rows are empty.
                0
            },
            None => 0,
        };
        assert(r.width * bpp == r.width * wire_bpp(r.pixel_format)) by (nonlinear_arith)
            requires
                r.width * wire_bpp(r.pixel_format) <= u32::MAX,
                bpp == wire_bpp(r.pixel_format) || (bpp == 0 && wire_bpp(r.pixel_format)
                    > u32::MAX),
                r.width >= 0,
        ;
        Wireframe {
            dispatch_uid: r.dispatch_uid,
            image: Image {
                width: r.width,
                height: r.height as u32,
                bytes_per_row: r.width * bpp,
                pixel_format: r.pixel_format,
                payload,
            },
        }
    }

    /// A wireframe of the given geometry and format (dispatch uid 0).
    pub fn for_test(width: u32, height: u16, bpr: u32, fmt: u32, payload: Payload) -> (w: Wireframe)
        ensures
            w.spec_dispatch_uid() == 0,
            w.spec_width() == width,
            w.spec_height() == height,
            w.spec_bytes_per_row() == bpr,
            w.spec_pixel_format() == fmt,
            w.spec_raw_bytes() == payload.spec_bytes(),
    {
        Wireframe {
            dispatch_uid: 0,
            image: Image { width, height: height as u32, bytes_per_row: bpr, pixel_format: fmt, payload },
        }
    }

    /// The draw's dispatch uid.
    pub fn dispatch_uid(&self) -> (r: u32)
        ensures
            r == self.spec_dispatch_uid(),
    {
        self.dispatch_uid
    }

    /// Width in pixels.
    pub fn width(&self) -> (r: u32)
        ensures
            r == self.spec_width(),
    {
        self.image.width
    }

    /// Height in pixels.
    pub fn height(&self) -> (r: u32)
        ensures
            r == self.spec_height(),
    {
        self.image.height
    }

    /// Stride between rows, in bytes.
    pub fn bytes_per_row(&self) -> (r: u32)
        ensures
            r == self.spec_bytes_per_row(),
    {
        self.image.bytes_per_row
    }

    /// The raw `MTLPixelFormat` code.
    pub fn pixel_format(&self) -> (r: u32)
        ensures
            r == self.spec_pixel_format(),
    {
        self.image.pixel_format
    }

    /// The structural format the pixel format code describes.
    pub fn format_kind(&self) -> (k: FormatKind)
        ensures
            k@ == spec_format_kind(self.spec_pixel_format()),
    {
        self.image.format_kind()
    }

    /// The fetched bytes, never altered.
    pub fn raw_bytes(&self) -> (r: &[u8])
        ensures
            r@ == self.spec_raw_bytes(),
    {
        self.image.raw_bytes()
    }

    /// The bytes a typed view of `elem_size`-byte pixels covers (see
    /// [`spec_pixel_len`]).
    pub fn pixel_bytes(&self, elem_size: usize) -> (r: Result<&[u8], Error>)
        ensures
            match spec_pixel_len(
                self.spec_pixel_format(),
                self.spec_width(),
                self.spec_height(),
                self.spec_bytes_per_row(),
                self.spec_raw_bytes().len(),
                elem_size,
            ) {
                Ok(need) => r matches Ok(b) && b@ == self.spec_raw_bytes().subrange(0, need as int),
                Err(e) => r == Err::<&[u8], Error>(e),
            },
    {
        self.image.pixel_bytes(elem_size)
    }

    /// Each row's bytes for a typed view of `elem_size`-byte pixels.
    pub fn row_bytes(&self, elem_size: usize) -> (r: Result<Vec<&[u8]>, Error>)
        ensures
            match spec_rows_check(
                self.spec_pixel_format(),
                self.spec_width(),
                self.spec_height(),
                self.spec_bytes_per_row(),
                self.spec_raw_bytes().len(),
                elem_size,
            ) {
                Ok(bpp) => r matches Ok(rows) && rows@.len() == self.spec_height() && forall|y: int|
                    0 <= y < self.spec_height() ==> (#[trigger] rows@[y])@
                        == self.spec_raw_bytes().subrange(
                        y * self.spec_bytes_per_row(),
                        y * self.spec_bytes_per_row() + self.spec_width() * bpp,
                    ),
                Err(e) => r == Err::<Vec<&[u8]>, Error>(e),
            },
    {
        self.image.row_bytes(elem_size)
    }
}

} // verus!
