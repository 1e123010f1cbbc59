//! Fetched acceleration structures: raw bytes always available, header
//! fields and triangle vertex data located on demand.

use crate::hl::bytes::Payload;
use crate::hl::error::Error;
use crate::replay::util::{le32, le64, u32_at, u64_at};
use vstd::prelude::*;
use vstd::slice::slice_subrange;

verus! {

/// `0x2c`, u32: the triangle (primitive) count.
pub const TRIANGLE_COUNT_OFFSET: usize = 0x2c;

/// `0x418`: the start of the tightly packed vertex data, three
/// little-endian `f32` per vertex and three vertices per triangle.
pub const VERTICES_OFFSET: usize = 0x418;

/// `0x0a0`: the geometry's bounding box, six little-endian `f32` (the
/// minimum corner, then the maximum one).
pub const AABB_OFFSET: usize = 0xa0;

/// Bytes per vertex: three `f32`.
pub const VERTEX_BYTES: usize = 12;

/// The little-endian `u64` at `off`, if the bytes hold it.
pub open spec fn spec_read_u64(b: Seq<u8>, off: int) -> Option<u64> {
    if off + 8 <= b.len() {
        Some(le64(b, off) as u64)
    } else {
        None
    }
}

/// The little-endian `u32` at `off`, if the bytes hold it.
pub open spec fn spec_read_u32(b: Seq<u8>, off: int) -> Option<u32> {
    if off + 4 <= b.len() {
        Some(le32(b, off) as u32)
    } else {
        None
    }
}

/// Little-endian `u64` at `off`, or `None` if the payload is too short.
fn read_u64(b: &[u8], off: usize) -> (r: Option<u64>)
    requires
        off <= usize::MAX - 8,
    ensures
        r == spec_read_u64(b@, off as int),
{
    if off + 8 <= b.len() {
        Some(u64_at(b, off))
    } else {
        None
    }
}

/// Little-endian `u32` at `off`, or `None` if the payload is too short.
fn read_u32(b: &[u8], off: usize) -> (r: Option<u32>)
    requires
        off <= usize::MAX - 4,
    ensures
        r == spec_read_u32(b@, off as int),
{
    if off + 4 <= b.len() {
        Some(u32_at(b, off))
    } else {
        None
    }
}

/// The bit patterns of a bounding box's six `f32` fields, as stored.
pub struct AabbBits {
    /// The minimum corner (x, y, z).
    pub min: [u32; 3],
    /// The maximum corner (x, y, z).
    pub max: [u32; 3],
}

/// The vertex bytes the header's triangle count declares: `count * 3`
/// vertices of [`VERTEX_BYTES`] from [`VERTICES_OFFSET`]; `Truncated` when
/// the payload cannot hold the count field or those vertices.
pub open spec fn spec_triangle_bytes(b: Seq<u8>) -> Result<Seq<u8>, Error> {
    match spec_read_u32(b, TRIANGLE_COUNT_OFFSET as int) {
        None => Err(Error::Truncated),
        Some(count) => {
            let need = count * 3 * VERTEX_BYTES;
            if need > usize::MAX || VERTICES_OFFSET + need > usize::MAX || VERTICES_OFFSET + need
                > b.len() {
                Err(Error::Truncated)
            } else {
                Ok(b.subrange(VERTICES_OFFSET as int, VERTICES_OFFSET + need))
            }
        },
    }
}

/// A fetched acceleration structure. Raw bytes always; geometry on demand.
pub struct AccelStructure {
    payload: Payload,
}

impl AccelStructure {
    /// The fetched bytes.
    pub closed spec fn spec_raw_bytes(&self) -> Seq<u8> {
        self.payload.spec_bytes()
    }

    /// Builds an acceleration structure from a fetched record's payload.
    pub fn from_parts(payload: Payload) -> (a: AccelStructure)
        ensures
            a.spec_raw_bytes() == payload.spec_bytes(),
    {
        AccelStructure { payload }
    }

    /// The raw bytes. Always available.
    pub fn raw_bytes(&self) -> (r: &[u8])
        ensures
            r@ == self.spec_raw_bytes(),
    {
        self.payload.bytes()
    }

    /// The structure's declared byte size (the `u64` at `0x08`), or `None`
    /// if the payload is shorter than the field.
    pub fn total_size(&self) -> (r: Option<u64>)
        ensures
            r == spec_read_u64(self.spec_raw_bytes(), 0x08),
    {
        read_u64(self.raw_bytes(), 0x08)
    }

    /// The bounding box's six `f32` bit patterns (at `0x0a0..0x0b8`), if the
    /// payload is long enough.
    pub fn aabb_bits(&self) -> (r: Option<AabbBits>)
        ensures
            match r {
                Some(a) => AABB_OFFSET + 24 <= self.spec_raw_bytes().len() && forall|i: int|
                    0 <= i < 3 ==> a.min@[i] == le32(self.spec_raw_bytes(), AABB_OFFSET + 4 * i)
                        && a.max@[i] == le32(self.spec_raw_bytes(), AABB_OFFSET + 12 + 4 * i),
                None => AABB_OFFSET + 24 > self.spec_raw_bytes().len(),
            },
    {
        let b = self.raw_bytes();
        if b.len() < AABB_OFFSET + 24 {
            return None;
        }
        let min = [u32_at(b, 0xa0), u32_at(b, 0xa4), u32_at(b, 0xa8)];
        let max = [u32_at(b, 0xac), u32_at(b, 0xb0), u32_at(b, 0xb4)];
        Some(AabbBits { min, max })
    }

    /// The triangle vertex bytes, bounded to exactly the header's triangle
    /// count (`count * 3` vertices, never more): `Truncated` if the payload
    /// cannot hold the count field, or is shorter than
    /// `0x418 + count * 3 * 12` requires.
    pub fn triangle_bytes(&self) -> (r: Result<&[u8], Error>)
        ensures
            match spec_triangle_bytes(self.spec_raw_bytes()) {
                Ok(v) => r matches Ok(x) && x@ == v,
                Err(e) => r matches Err(x) && x == e,
            },
    {
        let b = self.raw_bytes();
        let count = match read_u32(b, TRIANGLE_COUNT_OFFSET) {
            Some(c) => c as usize,
            None => return Err(Error::Truncated),
        };
        let need = match count.checked_mul(3) {
            Some(verts) => match verts.checked_mul(VERTEX_BYTES) {
                Some(n) => n,
                None => return Err(Error::Truncated),
            },
            None => return Err(Error::Truncated),
        };
        let end = match VERTICES_OFFSET.checked_add(need) {
            Some(e) => e,
            None => return Err(Error::Truncated),
        };
        if end > b.len() {
            return Err(Error::Truncated);
        }
        Ok(slice_subrange(b, VERTICES_OFFSET, end))
    }
}

} // verus!
