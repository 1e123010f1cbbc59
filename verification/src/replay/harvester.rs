//! Parser for the harvester "capture" block format: a self-describing
//! metadata block (magic, type, metadata size, plane count, then 0x30-byte
//! plane descriptors) followed by the data payload. A capture-bundle
//! `MTLTexture-*` file is such a block, so these can be read standalone.

use crate::replay::error::HarvesterError;
use crate::replay::util::{le16, le32, le64, u16_at, u32_at, u64_at};
use vstd::prelude::*;
use vstd::slice::slice_subrange;

verus! {

/// Offset of the `u16` type tag (1 = texture).
pub const TYPE_OFF: usize = 0x0a;
/// Offset of the `u32` metadata size.
pub const METADATA_SIZE_OFF: usize = 0x0c;
/// Offset of the `u64` plane count.
pub const PLANE_COUNT_OFF: usize = 0x10;
/// Header size, and offset of plane descriptor 0.
pub const HEADER_LEN: usize = 0x18;
/// Size of one plane descriptor: six `u64` fields.
pub const PLANE_DESC_LEN: usize = 0x30;

/// The eight magic bytes a capture block starts with.
pub open spec fn spec_magic() -> Seq<u8> {
    seq![0x65u8, 0x72, 0x75, 0x74, 0x70, 0x61, 0x63, 0x00]
}

/// Where plane descriptor `i` starts.
pub open spec fn plane_offset(i: int) -> int {
    HEADER_LEN as int + i * PLANE_DESC_LEN as int
}

/// What a block of bytes `b` parses to: its metadata size and plane count,
/// or the error it is rejected with (checked in this order: length and
/// magic, type tag, then that the metadata region and every plane descriptor
/// fit in the buffer).
pub open spec fn spec_parse(b: Seq<u8>) -> Result<(int, int), HarvesterError> {
    if b.len() < HEADER_LEN || b.subrange(0, 8) != spec_magic() {
        Err(HarvesterError::BadMagic)
    } else if le16(b, TYPE_OFF as int) != 1 {
        Err(HarvesterError::WrongType(le16(b, TYPE_OFF as int) as u16))
    } else if plane_offset(le64(b, PLANE_COUNT_OFF as int)) > usize::MAX
        || le32(b, METADATA_SIZE_OFF as int) > b.len()
        || plane_offset(le64(b, PLANE_COUNT_OFF as int)) > b.len() {
        Err(HarvesterError::Truncated)
    } else {
        Ok((le32(b, METADATA_SIZE_OFF as int), le64(b, PLANE_COUNT_OFF as int)))
    }
}

/// One texture plane's descriptor (six `u64` fields).
#[derive(Debug, Clone, Copy, PartialEq, Eq)]
pub struct PlaneDescriptor {
    /// `MTLPixelFormat` (e.g. 80 = BGRA8Unorm): the low 32 bits of field 0.
    pub pixel_format: u32,
    /// Width in texels.
    pub width: u64,
    /// Height in texels.
    pub height: u64,
    /// Depth / slice count.
    pub depth: u64,
    /// Bytes per row.
    pub bytes_per_row: u64,
    /// Bytes per image (= plane size).
    pub bytes_per_image: u64,
}

/// The descriptor stored at offset `o` of `b`.
pub open spec fn plane_at(b: Seq<u8>, o: int) -> PlaneDescriptor {
    PlaneDescriptor {
        pixel_format: (le64(b, o) % 0x1_0000_0000) as u32,
        width: le64(b, o + 0x08) as u64,
        height: le64(b, o + 0x10) as u64,
        depth: le64(b, o + 0x18) as u64,
        bytes_per_row: le64(b, o + 0x20) as u64,
        bytes_per_image: le64(b, o + 0x28) as u64,
    }
}

/// A validated "capture" metadata block over a borrowed byte buffer.
#[derive(Debug, Clone, Copy)]
pub struct CaptureBlock<'a> {
    bytes: &'a [u8],
    metadata_size: usize,
    plane_count: u64,
}

impl<'a> CaptureBlock<'a> {
    #[verifier::type_invariant]
    spec fn well_formed(self) -> bool {
        spec_parse(self.bytes@) == Ok::<(int, int), HarvesterError>(
            (self.metadata_size as int, self.plane_count as int),
        )
    }

    /// The buffer this block was parsed from.
    pub closed spec fn spec_bytes(self) -> Seq<u8> {
        self.bytes@
    }

    /// The declared metadata size (where the data payload starts).
    pub closed spec fn spec_metadata_size(self) -> int {
        self.metadata_size as int
    }

    /// The declared number of plane descriptors.
    pub closed spec fn spec_plane_count(self) -> int {
        self.plane_count as int
    }

    /// Validate `bytes` as a texture capture block.
    pub fn parse(bytes: &'a [u8]) -> (r: Result<Self, HarvesterError>)
        ensures
            match (r, spec_parse(bytes@)) {
                (Ok(block), Ok((m, n))) => block.spec_bytes() == bytes@ && block.spec_metadata_size()
                    == m && block.spec_plane_count() == n,
                (Err(e), Err(f)) => e == f,
                _ => false,
            },
    {
        if bytes.len() < HEADER_LEN {
            return Err(HarvesterError::BadMagic);
        }
        let magic_ok = bytes[0] == 0x65 && bytes[1] == 0x72 && bytes[2] == 0x75 && bytes[3] == 0x74
            && bytes[4] == 0x70 && bytes[5] == 0x61 && bytes[6] == 0x63 && bytes[7] == 0x00;
        proof {
            if magic_ok {
                assert(bytes@.subrange(0, 8) =~= spec_magic());
            } else {
                assert(bytes@.subrange(0, 8) != spec_magic()) by {
                    if bytes@.subrange(0, 8) == spec_magic() {
                        assert(bytes@.subrange(0, 8)[0] == bytes@[0]);
                        assert(bytes@.subrange(0, 8)[1] == bytes@[1]);
                        assert(bytes@.subrange(0, 8)[2] == bytes@[2]);
                        assert(bytes@.subrange(0, 8)[3] == bytes@[3]);
                        assert(bytes@.subrange(0, 8)[4] == bytes@[4]);
                        assert(bytes@.subrange(0, 8)[5] == bytes@[5]);
                        assert(bytes@.subrange(0, 8)[6] == bytes@[6]);
                        assert(bytes@.subrange(0, 8)[7] == bytes@[7]);
                    }
                }
            }
        }
        if !magic_ok {
            return Err(HarvesterError::BadMagic);
        }
        let ty = u16_at(bytes, TYPE_OFF);
        if ty != 1 {
            return Err(HarvesterError::WrongType(ty));
        }
        let metadata_size = u32_at(bytes, METADATA_SIZE_OFF) as usize;
        let plane_count = u64_at(bytes, PLANE_COUNT_OFF);
        // Every plane descriptor and the metadata region must fit.
        let planes_end = if plane_count > ((usize::MAX - HEADER_LEN) / PLANE_DESC_LEN) as u64 {
            proof {
                assert(plane_offset(plane_count as int) > usize::MAX) by (nonlinear_arith)
                    requires
                        plane_count > (usize::MAX - 0x18) / 0x30,
                ;
            }
            return Err(HarvesterError::Truncated);
        } else {
            proof {
                assert(plane_offset(plane_count as int) <= usize::MAX) by (nonlinear_arith)
                    requires
                        plane_count <= (usize::MAX - 0x18) / 0x30,
                ;
            }
            (plane_count as usize) * PLANE_DESC_LEN + HEADER_LEN
        };
        if metadata_size > bytes.len() || planes_end > bytes.len() {
            return Err(HarvesterError::Truncated);
        }
        let block = CaptureBlock { bytes, metadata_size, plane_count };
        Ok(block)
    }

    /// Number of texture planes.
    pub fn plane_count(&self) -> (r: u64)
        ensures
            r as int == self.spec_plane_count(),
    {
        self.plane_count
    }

    /// The `i`-th plane descriptor, or `None` if `i >= plane_count`.
    pub fn plane(&self, i: u64) -> (r: Option<PlaneDescriptor>)
        ensures
            i < self.spec_plane_count() ==> r == Some(
                plane_at(self.spec_bytes(), plane_offset(i as int)),
            ),
            i >= self.spec_plane_count() ==> r is None,
    {
        proof {
            use_type_invariant(self);
        }
        if i >= self.plane_count {
            return None;
        }
        proof {
            assert(plane_offset(i as int) + PLANE_DESC_LEN <= plane_offset(self.plane_count as int))
                by (nonlinear_arith)
                requires
                    i < self.plane_count,
            ;
        }
        let o = (i as usize) * PLANE_DESC_LEN + HEADER_LEN;
        Some(
            PlaneDescriptor {
                pixel_format: (u64_at(self.bytes, o) % 0x1_0000_0000) as u32,
                width: u64_at(self.bytes, o + 0x08),
                height: u64_at(self.bytes, o + 0x10),
                depth: u64_at(self.bytes, o + 0x18),
                bytes_per_row: u64_at(self.bytes, o + 0x20),
                bytes_per_image: u64_at(self.bytes, o + 0x28),
            },
        )
    }

    /// The data payload after the metadata.
    pub fn data(&self) -> (r: &'a [u8])
        ensures
            r@ == self.spec_bytes().subrange(self.spec_metadata_size(), self.spec_bytes().len() as int),
    {
        proof {
            use_type_invariant(self);
        }
        slice_subrange(self.bytes, self.metadata_size, self.bytes.len())
    }
}

/// Plane `i`'s descriptor is read field by field from its own 48 bytes,
/// right after the 24-byte header: the pixel format from the low 32 bits of
/// the `u64` at `0x18 + 0x30 * i`, then width, height, depth, bytes per row
/// and bytes per image from the little-endian `u64`s at 8, 16, 24, 32 and 40
/// bytes past it, in that order.
pub proof fn lemma_plane_fields(b: Seq<u8>, i: int)
    requires
        0 <= i,
    ensures
        plane_at(b, plane_offset(i)).pixel_format as int == le64(b, 0x18 + 0x30 * i) % 0x1_0000_0000,
        plane_at(b, plane_offset(i)).width == le64(b, 0x18 + 0x30 * i + 0x08) as u64,
        plane_at(b, plane_offset(i)).height == le64(b, 0x18 + 0x30 * i + 0x10) as u64,
        plane_at(b, plane_offset(i)).depth == le64(b, 0x18 + 0x30 * i + 0x18) as u64,
        plane_at(b, plane_offset(i)).bytes_per_row == le64(b, 0x18 + 0x30 * i + 0x20) as u64,
        plane_at(b, plane_offset(i)).bytes_per_image == le64(b, 0x18 + 0x30 * i + 0x28) as u64,
{
}

/// The block starts with the eight magic bytes `65 72 75 74 70 61 63 00`.
pub open spec fn starts_with_magic(b: Seq<u8>) -> bool {
    &&& b.len() >= 8
    &&& b[0] == 0x65 && b[1] == 0x72 && b[2] == 0x75 && b[3] == 0x74
    &&& b[4] == 0x70 && b[5] == 0x61 && b[6] == 0x63 && b[7] == 0x00
}

/// A block is accepted exactly when it holds the 24-byte header, starts
/// with the magic, is tagged type 1 in the `u16` at 0x0a, and holds both its
/// metadata (as many bytes as the `u32` at 0x0c says) and every one of its
/// 48-byte plane descriptors (as many as the `u64` at 0x10 says, from 0x18
/// on). An accepted block reports exactly that metadata size and plane
/// count. A block too short or without the magic is `BadMagic`, and one of
/// another type is `WrongType` with that type.
pub proof fn lemma_parse_accepts(b: Seq<u8>)
    ensures
        spec_parse(b) is Ok <==> (b.len() >= 0x18 && starts_with_magic(b) && le16(b, 0x0a) == 1
            && le32(b, 0x0c) <= b.len() && 0x18 + 0x30 * le64(b, 0x10) <= b.len() && 0x18 + 0x30
            * le64(b, 0x10) <= usize::MAX),
        spec_parse(b) matches Ok((m, n)) ==> m == le32(b, 0x0c) && n == le64(b, 0x10),
        (b.len() < 0x18 || !starts_with_magic(b)) ==> spec_parse(b) == Err::<(int, int), HarvesterError>(
            HarvesterError::BadMagic,
        ),
        (b.len() >= 0x18 && starts_with_magic(b) && le16(b, 0x0a) != 1) ==> spec_parse(b) == Err::<
            (int, int),
            HarvesterError,
        >(HarvesterError::WrongType(le16(b, 0x0a) as u16)),
{
    if b.len() >= 8 {
        if starts_with_magic(b) {
            assert(b.subrange(0, 8) =~= spec_magic());
        } else if b.subrange(0, 8) == spec_magic() {
            assert(b.subrange(0, 8)[0] == b[0]);
            assert(b.subrange(0, 8)[1] == b[1]);
            assert(b.subrange(0, 8)[2] == b[2]);
            assert(b.subrange(0, 8)[3] == b[3]);
            assert(b.subrange(0, 8)[4] == b[4]);
            assert(b.subrange(0, 8)[5] == b[5]);
            assert(b.subrange(0, 8)[6] == b[6]);
            assert(b.subrange(0, 8)[7] == b[7]);
        }
    }
}

} // verus!
