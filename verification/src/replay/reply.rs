//! Reply decoding: the envelope a fetch returns (`unknown`/`info`/`data`),
//! and the typed, owned records packed into its `info` table.

use crate::replay::archive::{
    decode_plist, dict_get, pitems, plist_decoding, PValue, PlistDict, PlistValue,
};
use crate::replay::error::FetchError;
use crate::replay::util::{decimal, decimal_text, le16, le32, le64, u16_at, u32_at, u64_at};
use std::collections::BTreeMap;
use vstd::prelude::*;
use vstd::slice::slice_subrange;
use vstd::string::*;

verus! {

broadcast use vstd::laws_cmp::group_laws_cmp;

/// The raw envelope of a decoded fetch reply: the unknown array's length and
/// the two data blobs (`info`, the descriptor table; `data`, the payload
/// bytes), before either is interpreted into typed records.
#[derive(Debug, Clone)]
pub struct RawReply {
    /// The length of the `unknown` array's `NS.objects`. What this array
    /// actually holds is not established - it is present and empty in every
    /// reply seen so far.
    pub unknown_len: usize,
    /// The descriptor table: a sequence of fixed-stride records, one per
    /// fetched resource.
    pub info: Vec<u8>,
    /// Concatenated raw payload bytes, indexed into by each record's
    /// `data_range`.
    pub data: Vec<u8>,
}

/// Record stride in the info table (80 for every class seen).
pub const RECORD_STRIDE: usize = 80;

/// Byte offset of the per-session request ordinal.
pub const REQUEST_ORDINAL_OFF: usize = 0x00;
/// Byte offset of the streamRef.
pub const STREAM_REF_OFF: usize = 0x08;
/// Byte offset of the payload offset into the reply `data`.
pub const DATA_OFFSET_OFF: usize = 0x18;
/// Byte offset of the payload size.
pub const SIZE_OFF: usize = 0x1c;
/// Byte offset of the width.
pub const WIDTH_OFF: usize = 0x30;
/// Byte offset of the (16-bit) height.
pub const HEIGHT_OFF: usize = 0x34;
/// Byte offset of the (16-bit) depth.
pub const DEPTH_OFF: usize = 0x36;
/// Byte offset of the `MTLPixelFormat`.
pub const PIXEL_FORMAT_OFF: usize = 0x38;
/// Byte offset of the bytes per row.
pub const BYTES_PER_ROW_OFF: usize = 0x40;
/// Byte offset of the bytes per image.
pub const BYTES_PER_IMAGE_OFF: usize = 0x44;
/// Byte offset of the word whose high 16 bits are the slice.
pub const SLICE_OFF: usize = 0x48;
/// Byte offset of the word packing plane (bits 8..16) and level (bits 0..8).
pub const PLANE_LEVEL_OFF: usize = 0x4c;
/// Byte offset of a pipeline record's sequential pipeline id.
pub const PIPELINE_ID_OFF: usize = 0x00;
/// Byte offset of a pipeline record's 64-bit handle.
pub const PIPELINE_HANDLE_OFF: usize = 0x08;
/// Byte offset of the dispatchUID a wireframe record answers.
pub const WIREFRAME_DISPATCH_UID_OFF: usize = 0x10;

/// The `(offset, size)` of the payload an 80-byte info record points at.
pub open spec fn payload_range(c: Seq<u8>) -> (int, int) {
    (le32(c, DATA_OFFSET_OFF as int), le32(c, SIZE_OFF as int))
}

/// The verbatim `u32` at each of `offsets`, keyed by offset.
pub open spec fn unmapped_map(c: Seq<u8>, offsets: Seq<usize>) -> Map<usize, u32> {
    Map::new(|o: usize| offsets.contains(o), |o: usize| le32(c, o as int) as u32)
}

/// A decoded 80-byte reply record. Each fetch class has its own layout.
pub trait Record: Sized {
    /// `self` holds exactly the fields this class reads out of `chunk`.
    spec fn decodes_from(&self, chunk: Seq<u8>) -> bool;

    /// `(offset, size)` of this record's payload within the reply `data`.
    spec fn spec_data_range(&self) -> (int, int);

    /// Decode one record from a chunk of at least 80 bytes; only the first
    /// 80 are read.
    fn decode(chunk: &[u8]) -> (r: Self)
        requires
            chunk@.len() >= RECORD_STRIDE,
        ensures
            r.decodes_from(chunk@),
            r.spec_data_range() == payload_range(chunk@),
    ;

    /// (offset, len) of this record's payload within the reply `data`.
    fn data_range(&self) -> (r: (usize, usize))
        ensures
            r.0 as int == self.spec_data_range().0,
            r.1 as int == self.spec_data_range().1,
    ;
}

/// The offsets a texture record does not interpret.
pub open spec fn spec_texture_unmapped() -> Seq<usize> {
    seq![0x04, 0x0c, 0x10, 0x14, 0x20, 0x24, 0x28, 0x2c, 0x3c]
}

/// The offsets a buffer/heap/acceleration-structure record does not
/// interpret: all but the streamRef, payload offset and size.
pub open spec fn spec_identity_unmapped() -> Seq<usize> {
    seq![
        0x00, 0x04, 0x0c, 0x10, 0x14, 0x20, 0x24, 0x28, 0x2c, 0x30, 0x34, 0x38, 0x3c, 0x40, 0x44,
        0x48, 0x4c,
    ]
}

/// The offsets a pipeline record does not interpret: all but `pipeline_id`
/// (0x00), `handle` (0x08..0x10), payload offset and size.
pub open spec fn spec_pipeline_unmapped() -> Seq<usize> {
    seq![0x04, 0x10, 0x14, 0x20, 0x24, 0x28, 0x2c, 0x30, 0x34, 0x38, 0x3c, 0x40, 0x44, 0x48, 0x4c]
}

/// The offsets a wireframe record does not interpret: all but
/// `dispatch_uid`, payload offset, size, width, height and pixel format.
pub open spec fn spec_wireframe_unmapped() -> Seq<usize> {
    seq![0x00, 0x04, 0x08, 0x0c, 0x14, 0x20, 0x24, 0x28, 0x2c, 0x3c, 0x40, 0x44, 0x48, 0x4c]
}

fn texture_unmapped() -> (v: Vec<usize>)
    ensures
        v@ == spec_texture_unmapped(),
{
    let v = vec![0x04, 0x0c, 0x10, 0x14, 0x20, 0x24, 0x28, 0x2c, 0x3c];
    assert(v@ =~= spec_texture_unmapped());
    v
}

fn identity_unmapped() -> (v: Vec<usize>)
    ensures
        v@ == spec_identity_unmapped(),
{
    let v = vec![
        0x00, 0x04, 0x0c, 0x10, 0x14, 0x20, 0x24, 0x28, 0x2c, 0x30, 0x34, 0x38, 0x3c, 0x40, 0x44,
        0x48, 0x4c,
    ];
    assert(v@ =~= spec_identity_unmapped());
    v
}

fn pipeline_unmapped() -> (v: Vec<usize>)
    ensures
        v@ == spec_pipeline_unmapped(),
{
    let v = vec![
        0x04, 0x10, 0x14, 0x20, 0x24, 0x28, 0x2c, 0x30, 0x34, 0x38, 0x3c, 0x40, 0x44, 0x48, 0x4c,
    ];
    assert(v@ =~= spec_pipeline_unmapped());
    v
}

fn wireframe_unmapped() -> (v: Vec<usize>)
    ensures
        v@ == spec_wireframe_unmapped(),
{
    let v = vec![0x00, 0x04, 0x08, 0x0c, 0x14, 0x20, 0x24, 0x28, 0x2c, 0x3c, 0x40, 0x44, 0x48, 0x4c];
    assert(v@ =~= spec_wireframe_unmapped());
    v
}

/// The name of an info-record byte offset, as the hex text of that offset
/// (offsets past the table name the last slot, `0x4c`).
pub open spec fn spec_offset_name(o: usize) -> &'static str {
    match o {
        0x00 => "0x00",
        0x04 => "0x04",
        0x08 => "0x08",
        0x0c => "0x0c",
        0x10 => "0x10",
        0x14 => "0x14",
        0x18 => "0x18",
        0x1c => "0x1c",
        0x20 => "0x20",
        0x24 => "0x24",
        0x28 => "0x28",
        0x2c => "0x2c",
        0x30 => "0x30",
        0x34 => "0x34",
        0x38 => "0x38",
        0x3c => "0x3c",
        0x40 => "0x40",
        0x44 => "0x44",
        0x48 => "0x48",
        _ => "0x4c",
    }
}

/// Name an info-record byte offset (its hex text), for display of the
/// `unmapped` fields.
pub fn offset_name(o: usize) -> (r: &'static str)
    ensures
        r == spec_offset_name(o),
{
    match o {
        0x00 => "0x00",
        0x04 => "0x04",
        0x08 => "0x08",
        0x0c => "0x0c",
        0x10 => "0x10",
        0x14 => "0x14",
        0x18 => "0x18",
        0x1c => "0x1c",
        0x20 => "0x20",
        0x24 => "0x24",
        0x28 => "0x28",
        0x2c => "0x2c",
        0x30 => "0x30",
        0x34 => "0x34",
        0x38 => "0x38",
        0x3c => "0x3c",
        0x40 => "0x40",
        0x44 => "0x44",
        0x48 => "0x48",
        _ => "0x4c",
    }
}

/// The `u32` at each of `offsets` in `c`, keyed by offset: the fields a
/// record class does not interpret, preserved verbatim.
pub fn unmapped_of(c: &[u8], offsets: &Vec<usize>) -> (m: BTreeMap<usize, u32>)
    requires
        forall|i: int| 0 <= i < offsets@.len() ==> #[trigger] offsets@[i] + 4 <= c@.len(),
    ensures
        m@ == unmapped_map(c@, offsets@),
{
    let mut m: BTreeMap<usize, u32> = BTreeMap::new();
    let mut i: usize = 0;
    while i < offsets.len()
        invariant
            i <= offsets@.len(),
            forall|k: int| 0 <= k < offsets@.len() ==> #[trigger] offsets@[k] + 4 <= c@.len(),
            m@ == unmapped_map(c@, offsets@.take(i as int)),
        decreases offsets@.len() - i,
    {
        let o = offsets[i];
        let v = u32_at(c, o);
        m.insert(o, v);
        proof {
            let next = offsets@.take(i as int + 1);
            assert(next =~= offsets@.take(i as int).push(o));
            assert forall|k: usize| #[trigger] next.contains(k) <==> (offsets@.take(
                i as int,
            ).contains(k) || k == o) by {
                if next.contains(k) {
                    let j = choose|j: int| 0 <= j < next.len() && next[j] == k;
                    if j < i {
                        assert(offsets@.take(i as int)[j] == k);
                    }
                }
                if k == o {
                    assert(next[i as int] == k);
                }
                if offsets@.take(i as int).contains(k) {
                    let j = choose|j: int|
                        0 <= j < offsets@.take(i as int).len() && offsets@.take(i as int)[j] == k;
                    assert(next[j] == k);
                }
            }
            assert(m@ =~= unmapped_map(c@, next));
        }
        i = i + 1;
    }
    assert(offsets@.take(offsets@.len() as int) =~= offsets@);
    m
}

/// A texture fetch record.
#[derive(Debug, Clone)]
pub struct TextureRecord {
    /// The resource's streamRef (info field 0x08).
    pub stream_ref: u32,
    /// Per-session request ordinal (info field 0x00). Not a streamRef.
    pub request_ordinal: u32,
    /// Payload offset into the reply `data`.
    pub data_offset: u32,
    /// Payload size in bytes.
    pub size: u32,
    /// Width in texels.
    pub width: u32,
    /// Height in texels.
    pub height: u16,
    /// Depth / slices.
    pub depth: u16,
    /// `MTLPixelFormat`.
    pub pixel_format: u32,
    /// Bytes per row.
    pub bytes_per_row: u32,
    /// Bytes per image.
    pub bytes_per_image: u32,
    /// The array slice (or cube face) this record answers (info field 0x48,
    /// high 16 bits). Self-describing: the value the request asked for.
    pub slice: u32,
    /// The texture plane this record answers (info field 0x4c, bits 8..16).
    pub plane: u32,
    /// The mip level this record answers (info field 0x4c, bits 0..8).
    pub level: u32,
    /// Preserved unmapped fields, keyed by byte offset.
    pub unmapped: BTreeMap<usize, u32>,
}

impl Record for TextureRecord {
    open spec fn decodes_from(&self, c: Seq<u8>) -> bool {
        &&& self.request_ordinal as int == le32(c, REQUEST_ORDINAL_OFF as int)
        &&& self.stream_ref as int == le32(c, STREAM_REF_OFF as int)
        &&& self.data_offset as int == le32(c, DATA_OFFSET_OFF as int)
        &&& self.size as int == le32(c, SIZE_OFF as int)
        &&& self.width as int == le32(c, WIDTH_OFF as int)
        &&& self.height as int == le16(c, HEIGHT_OFF as int)
        &&& self.depth as int == le16(c, DEPTH_OFF as int)
        &&& self.pixel_format as int == le32(c, PIXEL_FORMAT_OFF as int)
        &&& self.bytes_per_row as int == le32(c, BYTES_PER_ROW_OFF as int)
        &&& self.bytes_per_image as int == le32(c, BYTES_PER_IMAGE_OFF as int)
        &&& self.slice as int == le32(c, SLICE_OFF as int) / 65536
        &&& self.plane as int == (le32(c, PLANE_LEVEL_OFF as int) / 256) % 256
        &&& self.level as int == le32(c, PLANE_LEVEL_OFF as int) % 256
        &&& self.unmapped@ == unmapped_map(c, spec_texture_unmapped())
    }

    open spec fn spec_data_range(&self) -> (int, int) {
        (self.data_offset as int, self.size as int)
    }

    fn decode(c: &[u8]) -> (r: Self) {
        let plane_level = u32_at(c, PLANE_LEVEL_OFF);
        let offsets = texture_unmapped();
        TextureRecord {
            request_ordinal: u32_at(c, REQUEST_ORDINAL_OFF),
            stream_ref: u32_at(c, STREAM_REF_OFF),
            data_offset: u32_at(c, DATA_OFFSET_OFF),
            size: u32_at(c, SIZE_OFF),
            width: u32_at(c, WIDTH_OFF),
            height: u16_at(c, HEIGHT_OFF),
            depth: u16_at(c, DEPTH_OFF),
            pixel_format: u32_at(c, PIXEL_FORMAT_OFF),
            bytes_per_row: u32_at(c, BYTES_PER_ROW_OFF),
            bytes_per_image: u32_at(c, BYTES_PER_IMAGE_OFF),
            slice: u32_at(c, SLICE_OFF) / 65536,
            plane: (plane_level / 256) % 256,
            level: plane_level % 256,
            unmapped: unmapped_of(c, &offsets),
        }
    }

    fn data_range(&self) -> (r: (usize, usize)) {
        (self.data_offset as usize, self.size as usize)
    }
}

/// A buffer fetch record: raw bytes identified by `stream_ref` alone.
#[derive(Debug, Clone)]
pub struct BufferRecord {
    /// The resource's streamRef (info field 0x08).
    pub stream_ref: u32,
    /// Payload offset into the reply `data`.
    pub data_offset: u32,
    /// Payload size in bytes.
    pub size: u32,
    /// Preserved unmapped fields, keyed by byte offset.
    pub unmapped: BTreeMap<usize, u32>,
}

impl Record for BufferRecord {
    open spec fn decodes_from(&self, c: Seq<u8>) -> bool {
        &&& self.stream_ref as int == le32(c, STREAM_REF_OFF as int)
        &&& self.data_offset as int == le32(c, DATA_OFFSET_OFF as int)
        &&& self.size as int == le32(c, SIZE_OFF as int)
        &&& self.unmapped@ == unmapped_map(c, spec_identity_unmapped())
    }

    open spec fn spec_data_range(&self) -> (int, int) {
        (self.data_offset as int, self.size as int)
    }

    fn decode(c: &[u8]) -> (r: Self) {
        let offsets = identity_unmapped();
        BufferRecord {
            stream_ref: u32_at(c, STREAM_REF_OFF),
            data_offset: u32_at(c, DATA_OFFSET_OFF),
            size: u32_at(c, SIZE_OFF),
            unmapped: unmapped_of(c, &offsets),
        }
    }

    fn data_range(&self) -> (r: (usize, usize)) {
        (self.data_offset as usize, self.size as usize)
    }
}

/// A heap fetch record: raw bytes identified by `stream_ref` alone.
#[derive(Debug, Clone)]
pub struct HeapRecord {
    /// The resource's streamRef (info field 0x08).
    pub stream_ref: u32,
    /// Payload offset into the reply `data`.
    pub data_offset: u32,
    /// Payload size in bytes.
    pub size: u32,
    /// Preserved unmapped fields, keyed by byte offset.
    pub unmapped: BTreeMap<usize, u32>,
}

impl Record for HeapRecord {
    open spec fn decodes_from(&self, c: Seq<u8>) -> bool {
        &&& self.stream_ref as int == le32(c, STREAM_REF_OFF as int)
        &&& self.data_offset as int == le32(c, DATA_OFFSET_OFF as int)
        &&& self.size as int == le32(c, SIZE_OFF as int)
        &&& self.unmapped@ == unmapped_map(c, spec_identity_unmapped())
    }

    open spec fn spec_data_range(&self) -> (int, int) {
        (self.data_offset as int, self.size as int)
    }

    fn decode(c: &[u8]) -> (r: Self) {
        let offsets = identity_unmapped();
        HeapRecord {
            stream_ref: u32_at(c, STREAM_REF_OFF),
            data_offset: u32_at(c, DATA_OFFSET_OFF),
            size: u32_at(c, SIZE_OFF),
            unmapped: unmapped_of(c, &offsets),
        }
    }

    fn data_range(&self) -> (r: (usize, usize)) {
        (self.data_offset as usize, self.size as usize)
    }
}

/// An acceleration-structure fetch record: raw bytes identified by
/// `stream_ref` alone.
#[derive(Debug, Clone)]
pub struct AccelRecord {
    /// The resource's streamRef (info field 0x08).
    pub stream_ref: u32,
    /// Payload offset into the reply `data`.
    pub data_offset: u32,
    /// Payload size in bytes.
    pub size: u32,
    /// Preserved unmapped fields, keyed by byte offset.
    pub unmapped: BTreeMap<usize, u32>,
}

impl Record for AccelRecord {
    open spec fn decodes_from(&self, c: Seq<u8>) -> bool {
        &&& self.stream_ref as int == le32(c, STREAM_REF_OFF as int)
        &&& self.data_offset as int == le32(c, DATA_OFFSET_OFF as int)
        &&& self.size as int == le32(c, SIZE_OFF as int)
        &&& self.unmapped@ == unmapped_map(c, spec_identity_unmapped())
    }

    open spec fn spec_data_range(&self) -> (int, int) {
        (self.data_offset as int, self.size as int)
    }

    fn decode(c: &[u8]) -> (r: Self) {
        let offsets = identity_unmapped();
        AccelRecord {
            stream_ref: u32_at(c, STREAM_REF_OFF),
            data_offset: u32_at(c, DATA_OFFSET_OFF),
            size: u32_at(c, SIZE_OFF),
            unmapped: unmapped_of(c, &offsets),
        }
    }

    fn data_range(&self) -> (r: (usize, usize)) {
        (self.data_offset as usize, self.size as usize)
    }
}

/// A pipeline-binaries fetch record (command-stream-keyed, nested payload).
#[derive(Debug, Clone)]
pub struct PipelineRecord {
    /// Sequential pipeline id (info field 0x00).
    pub pipeline_id: u32,
    /// 64-bit pipeline handle (info field 0x08).
    pub handle: u64,
    /// Payload offset into `data` (the nested bplist of Mach-O + stats).
    pub data_offset: u32,
    /// Payload size.
    pub size: u32,
    /// Preserved unmapped fields, keyed by byte offset.
    pub unmapped: BTreeMap<usize, u32>,
}

impl Record for PipelineRecord {
    open spec fn decodes_from(&self, c: Seq<u8>) -> bool {
        &&& self.pipeline_id as int == le32(c, PIPELINE_ID_OFF as int)
        &&& self.handle as int == le64(c, PIPELINE_HANDLE_OFF as int)
        &&& self.data_offset as int == le32(c, DATA_OFFSET_OFF as int)
        &&& self.size as int == le32(c, SIZE_OFF as int)
        &&& self.unmapped@ == unmapped_map(c, spec_pipeline_unmapped())
    }

    open spec fn spec_data_range(&self) -> (int, int) {
        (self.data_offset as int, self.size as int)
    }

    fn decode(c: &[u8]) -> (r: Self) {
        let offsets = pipeline_unmapped();
        PipelineRecord {
            pipeline_id: u32_at(c, PIPELINE_ID_OFF),
            handle: u64_at(c, PIPELINE_HANDLE_OFF),
            data_offset: u32_at(c, DATA_OFFSET_OFF),
            size: u32_at(c, SIZE_OFF),
            unmapped: unmapped_of(c, &offsets),
        }
    }

    fn data_range(&self) -> (r: (usize, usize)) {
        (self.data_offset as usize, self.size as usize)
    }
}

/// A wireframe fetch record (dispatch-keyed; a rendered image).
#[derive(Debug, Clone)]
pub struct WireframeRecord {
    /// The dispatchUID this record answers (info field 0x10). The streamRef
    /// slot (0x08) holds -1.
    pub dispatch_uid: u32,
    /// Rendered image width.
    pub width: u32,
    /// Rendered image height.
    pub height: u16,
    /// `MTLPixelFormat` of the rendered image.
    pub pixel_format: u32,
    /// Payload offset into `data`.
    pub data_offset: u32,
    /// Payload size.
    pub size: u32,
    /// Preserved unmapped fields, keyed by byte offset.
    pub unmapped: BTreeMap<usize, u32>,
}

impl Record for WireframeRecord {
    open spec fn decodes_from(&self, c: Seq<u8>) -> bool {
        &&& self.dispatch_uid as int == le32(c, WIREFRAME_DISPATCH_UID_OFF as int)
        &&& self.width as int == le32(c, WIDTH_OFF as int)
        &&& self.height as int == le16(c, HEIGHT_OFF as int)
        &&& self.pixel_format as int == le32(c, PIXEL_FORMAT_OFF as int)
        &&& self.data_offset as int == le32(c, DATA_OFFSET_OFF as int)
        &&& self.size as int == le32(c, SIZE_OFF as int)
        &&& self.unmapped@ == unmapped_map(c, spec_wireframe_unmapped())
    }

    open spec fn spec_data_range(&self) -> (int, int) {
        (self.data_offset as int, self.size as int)
    }

    fn decode(c: &[u8]) -> (r: Self) {
        let offsets = wireframe_unmapped();
        WireframeRecord {
            dispatch_uid: u32_at(c, WIREFRAME_DISPATCH_UID_OFF),
            width: u32_at(c, WIDTH_OFF),
            height: u16_at(c, HEIGHT_OFF),
            pixel_format: u32_at(c, PIXEL_FORMAT_OFF),
            data_offset: u32_at(c, DATA_OFFSET_OFF),
            size: u32_at(c, SIZE_OFF),
            unmapped: unmapped_of(c, &offsets),
        }
    }

    fn data_range(&self) -> (r: (usize, usize)) {
        (self.data_offset as usize, self.size as usize)
    }
}

/// The `k`-th 80-byte record of an info table.
pub open spec fn info_chunk(info: Seq<u8>, k: int) -> Seq<u8> {
    info.subrange(k * RECORD_STRIDE as int, k * RECORD_STRIDE as int + RECORD_STRIDE as int)
}

/// Record `k`'s payload lies within a data blob of `data_len` bytes.
pub open spec fn payload_fits(info: Seq<u8>, k: int, data_len: int) -> bool {
    payload_range(info_chunk(info, k)).0 + payload_range(info_chunk(info, k)).1 <= data_len
}

/// An info table decodes: it is a whole number of records, and every
/// record's payload lies within the data blob.
pub open spec fn reply_decodes(info: Seq<u8>, data_len: int) -> bool {
    &&& info.len() % (RECORD_STRIDE as nat) == 0
    &&& forall|k: int|
        0 <= k < info.len() / (RECORD_STRIDE as nat) ==> #[trigger] payload_fits(info, k, data_len)
}

/// The message for an info table that is not a whole number of records.
pub open spec fn stride_message(len: nat) -> Seq<char> {
    "info table "@ + decimal(len) + " not a multiple of stride "@ + decimal(RECORD_STRIDE as nat)
}

/// The message for a record whose payload runs off the end of the data blob.
pub open spec fn payload_message(o: nat, n: nat, data_len: nat) -> Seq<char> {
    "record payload ["@ + decimal(o) + ", "@ + decimal(o) + "+"@ + decimal(n) + ") exceeds the "@
        + decimal(data_len) + "-byte data blob"@
}

fn stride_error(len: usize) -> (e: FetchError)
    ensures
        e matches FetchError::Parse(s) && s@ == stride_message(len as nat),
{
    let s = String::from_str("info table ").concat(decimal_text(len as u64).as_str()).concat(
        " not a multiple of stride ",
    ).concat(decimal_text(RECORD_STRIDE as u64).as_str());
    FetchError::Parse(s)
}

fn payload_error(o: usize, n: usize, data_len: usize) -> (e: FetchError)
    ensures
        e matches FetchError::Parse(s) && s@ == payload_message(o as nat, n as nat, data_len as nat),
{
    let os = decimal_text(o as u64);
    let s = String::from_str("record payload [").concat(os.as_str()).concat(", ").concat(
        os.as_str(),
    ).concat("+").concat(decimal_text(n as u64).as_str()).concat(") exceeds the ").concat(
        decimal_text(data_len as u64).as_str(),
    ).concat("-byte data blob");
    FetchError::Parse(s)
}

/// What decoding `raw` into typed records gives: records exactly when
/// every record's payload fits the data blob, one per 80-byte info record
/// and each decoded from its chunk; else a parse error naming the table
/// length when it is not a whole number of records, and otherwise naming
/// the first record whose payload runs off the end of the data blob.
pub open spec fn decoded_as<T: Record>(raw: RawReply, r: Result<Reply<T>, FetchError>) -> bool {
    &&& r is Ok <==> reply_decodes(raw.info@, raw.data@.len() as int)
    &&& r matches Ok(reply) ==> {
        &&& reply.spec_raw() == raw
        &&& reply.spec_records().len() * RECORD_STRIDE as int == raw.info@.len()
        &&& forall|k: int|
            0 <= k < reply.spec_records().len() ==> #[trigger] reply.spec_records()[k].decodes_from(
                info_chunk(raw.info@, k),
            )
    }
    &&& raw.info@.len() % (RECORD_STRIDE as nat) != 0 ==> (r matches Err(FetchError::Parse(s)) && s@
        == stride_message(raw.info@.len()))
    &&& raw.info@.len() % (RECORD_STRIDE as nat) == 0 && r is Err ==> exists|k: int|
        0 <= k < raw.info@.len() / (RECORD_STRIDE as nat) && !payload_fits(
            raw.info@,
            k,
            raw.data@.len() as int,
        ) && (forall|j: int| 0 <= j < k ==> payload_fits(raw.info@, j, raw.data@.len() as int)) && (
        r matches Err(FetchError::Parse(s)) && s@ == payload_message(
            payload_range(info_chunk(raw.info@, k)).0 as nat,
            payload_range(info_chunk(raw.info@, k)).1 as nat,
            raw.data@.len(),
        ))
}

/// A decoded reply: owns the raw bytes, yields typed records borrowing
/// `data`.
pub struct Reply<T: Record> {
    raw: RawReply,
    records: Vec<T>,
}

impl<T: Record> Reply<T> {
    #[verifier::type_invariant]
    spec fn well_formed(self) -> bool {
        &&& self.records@.len() * RECORD_STRIDE as int == self.raw.info@.len()
        &&& reply_decodes(self.raw.info@, self.raw.data@.len() as int)
        &&& forall|k: int|
            0 <= k < self.records@.len() ==> (#[trigger] self.records@[k]).decodes_from(
                info_chunk(self.raw.info@, k),
            ) && self.records@[k].spec_data_range() == payload_range(info_chunk(self.raw.info@, k))
    }

    /// The raw envelope this reply was decoded from.
    pub closed spec fn spec_raw(&self) -> RawReply {
        self.raw
    }

    /// The decoded records, one per info-table record, in table order.
    pub closed spec fn spec_records(&self) -> Seq<T> {
        self.records@
    }

    /// Decode a reply's info table into typed records. Fails with a parse
    /// error, naming the table length, when the table is not a whole number
    /// of 80-byte records, and otherwise, naming the first offending
    /// record's range, when some record's payload runs off the end of the
    /// data blob.
    pub fn decode(raw: RawReply) -> (r: Result<Self, FetchError>)
        ensures
            decoded_as(raw, r),
    {
        let n = raw.info.len();
        if n % RECORD_STRIDE != 0 {
            return Err(stride_error(n));
        }
        let count = n / RECORD_STRIDE;
        let mut records: Vec<T> = Vec::new();
        let mut i: usize = 0;
        let mut off: usize = 0;
        while i < count
            invariant
                count * RECORD_STRIDE == raw.info@.len(),
                n == raw.info@.len(),
                i <= count,
                off == i * RECORD_STRIDE,
                records@.len() == i,
                forall|k: int|
                    0 <= k < i ==> (#[trigger] records@[k]).decodes_from(info_chunk(raw.info@, k))
                        && records@[k].spec_data_range() == payload_range(info_chunk(raw.info@, k)),
            decreases count - i,
        {
            assert(off + RECORD_STRIDE <= raw.info@.len()) by (nonlinear_arith)
                requires
                    off == i * RECORD_STRIDE,
                    i < count,
                    count * RECORD_STRIDE == raw.info@.len(),
                    RECORD_STRIDE == 80,
            ;
            let chunk = slice_subrange(raw.info.as_slice(), off, off + RECORD_STRIDE);
            assert(chunk@ == info_chunk(raw.info@, i as int));
            let rec = T::decode(chunk);
            records.push(rec);
            i = i + 1;
            off = off + RECORD_STRIDE;
        }
        let data_len = raw.data.len();
        let mut j: usize = 0;
        while j < count
            invariant
                count * RECORD_STRIDE == raw.info@.len(),
                count == records@.len(),
                data_len == raw.data@.len(),
                j <= count,
                forall|k: int|
                    0 <= k < count ==> (#[trigger] records@[k]).decodes_from(info_chunk(raw.info@, k))
                        && records@[k].spec_data_range() == payload_range(info_chunk(raw.info@, k)),
                forall|k: int| 0 <= k < j ==> #[trigger] payload_fits(raw.info@, k, data_len as int),
            decreases count - j,
        {
            let (o, sz) = records[j].data_range();
            let fits = match o.checked_add(sz) {
                Some(end) => end <= data_len,
                None => false,
            };
            assert(records@[j as int].spec_data_range() == payload_range(
                info_chunk(raw.info@, j as int),
            ));
            if !fits {
                assert(!payload_fits(raw.info@, j as int, data_len as int));
                assert(j < raw.info@.len() / (RECORD_STRIDE as nat));
                return Err(payload_error(o, sz, data_len));
            }
            assert(payload_fits(raw.info@, j as int, data_len as int));
            j = j + 1;
        }
        assert(count == raw.info@.len() / (RECORD_STRIDE as nat));
        Ok(Reply { raw, records })
    }

    /// The decoded records. Every record's payload lies within the reply's
    /// data blob.
    pub fn records(&self) -> (r: &[T])
        ensures
            r@ == self.spec_records(),
            forall|k: int|
                0 <= k < r@.len() ==> #[trigger] r@[k].spec_data_range().0 + r@[k].spec_data_range().1
                    <= self.spec_raw().data@.len(),
    {
        proof {
            use_type_invariant(self);
            assert forall|k: int| 0 <= k < self.records@.len() implies #[trigger] self.records@[k].spec_data_range().0
                + self.records@[k].spec_data_range().1 <= self.raw.data@.len() by {
                assert(k < self.raw.info@.len() / (RECORD_STRIDE as nat));
                assert(payload_fits(self.raw.info@, k, self.raw.data@.len() as int));
            }
        }
        self.records.as_slice()
    }

    /// The payload bytes for one record (borrowed from the owned `data`), or
    /// nothing when the record's range lies outside the data blob - which no
    /// record of this reply does.
    pub fn payload(&self, r: &T) -> (out: &[u8])
        ensures
            r.spec_data_range().0 + r.spec_data_range().1 <= self.spec_raw().data@.len() ==> out@
                == self.spec_raw().data@.subrange(
                r.spec_data_range().0,
                r.spec_data_range().0 + r.spec_data_range().1,
            ),
            r.spec_data_range().0 + r.spec_data_range().1 > self.spec_raw().data@.len() ==> out@
                == Seq::<u8>::empty(),
    {
        let (o, n) = r.data_range();
        let data = self.raw.data.as_slice();
        if n <= data.len() && o <= data.len() - n {
            slice_subrange(data, o, o + n)
        } else {
            let empty: &[u8] = &[];
            assert(empty@ =~= Seq::<u8>::empty());
            empty
        }
    }

    /// The raw reply envelope.
    pub fn raw(&self) -> (r: &RawReply)
        ensures
            *r == self.spec_raw(),
    {
        &self.raw
    }
}

/// An object reference followed into the archive's `$objects` (any other
/// value stands for itself).
pub open spec fn spec_resolve(objects: Seq<PValue>, v: PValue) -> Result<PValue, Seq<char>> {
    match v {
        PValue::Uid(u) => if u > usize::MAX {
            Err("UID out of range"@)
        } else if u >= objects.len() {
            Err("UID "@ + decimal(u as nat) + " out of bounds"@)
        } else {
            Ok(objects[u as int])
        },
        other => Ok(other),
    }
}

/// What the envelope's `unknown`, `info` and `data` keys have given so far.
pub type EnvelopeParts = (Option<nat>, Option<Seq<u8>>, Option<Seq<u8>>);

/// Walk the payload's key/value pairs from pair `i` on: each key resolves to
/// a string; `unknown` must be an archived array (its length is kept),
/// `info` and `data` must be data (their bytes are kept); a later pair with
/// the same key overrides an earlier one, and other keys are ignored.
pub open spec fn envelope_pairs(
    objects: Seq<PValue>,
    keys: Seq<PValue>,
    vals: Seq<PValue>,
    i: int,
    acc: EnvelopeParts,
) -> Result<EnvelopeParts, Seq<char>>
    decreases keys.len() - i,
{
    if i >= keys.len() || i < 0 {
        Ok(acc)
    } else {
        match spec_resolve(objects, keys[i]) {
            Err(m) => Err(m),
            Ok(PValue::String(name)) => match spec_resolve(objects, vals[i]) {
                Err(m) => Err(m),
                Ok(value) => if name == "unknown"@ {
                    match value {
                        PValue::Dictionary(d) => match dict_get(d, "NS.objects"@) {
                            Some(PValue::Array(arr)) => envelope_pairs(
                                objects,
                                keys,
                                vals,
                                i + 1,
                                (Some(arr.len()), acc.1, acc.2),
                            ),
                            _ => Err("`unknown` is not an NSArray"@),
                        },
                        _ => Err("`unknown` is not an NSArray"@),
                    }
                } else if name == "info"@ {
                    match value {
                        PValue::Data(x) => envelope_pairs(objects, keys, vals, i + 1, (acc.0, Some(x), acc.2)),
                        _ => Err("`info` is not data"@),
                    }
                } else if name == "data"@ {
                    match value {
                        PValue::Data(x) => envelope_pairs(objects, keys, vals, i + 1, (acc.0, acc.1, Some(x))),
                        _ => Err("`data` is not data"@),
                    }
                } else {
                    envelope_pairs(objects, keys, vals, i + 1, acc)
                },
            },
            Ok(_) => Err("a payload key is not a string"@),
        }
    }
}

/// The envelope once all pairs are walked: each of `unknown`, `info` and
/// `data` must have been given, checked in that order.
pub open spec fn finish_envelope(r: Result<EnvelopeParts, Seq<char>>) -> Result<
    (nat, Seq<u8>, Seq<u8>),
    Seq<char>,
> {
    match r {
        Err(m) => Err(m),
        Ok((None, _, _)) => Err("missing key `unknown`"@),
        Ok((_, None, _)) => Err("missing key `info`"@),
        Ok((_, _, None)) => Err("missing key `data`"@),
        Ok((Some(u), Some(info), Some(data))) => Ok((u, info, data)),
    }
}

/// The envelope a decoded keyed archive holds: `$top.root` resolved to the
/// payload dictionary, whose `NS.keys`/`NS.objects` pairs must supply all of
/// `unknown`, `info` and `data`. The `Err` text names the first thing found
/// missing or malformed.
pub open spec fn spec_envelope(root: PValue) -> Result<(nat, Seq<u8>, Seq<u8>), Seq<char>> {
    match root {
        PValue::Dictionary(d) => match dict_get(d, "$objects"@) {
            Some(PValue::Array(objects)) => match dict_get(d, "$top"@) {
                Some(PValue::Dictionary(top)) => match dict_get(top, "root"@) {
                    Some(root_ref) => match spec_resolve(objects, root_ref) {
                        Err(m) => Err(m),
                        Ok(PValue::Dictionary(payload)) => match dict_get(payload, "NS.keys"@) {
                            Some(PValue::Array(keys)) => match dict_get(payload, "NS.objects"@) {
                                Some(PValue::Array(vals)) => if keys.len() != vals.len() {
                                    Err("NS.keys and NS.objects differ in length"@)
                                } else {
                                    finish_envelope(
                                        envelope_pairs(objects, keys, vals, 0, (None, None, None)),
                                    )
                                },
                                _ => Err("payload has no NS.objects"@),
                            },
                            _ => Err("payload has no NS.keys"@),
                        },
                        Ok(_) => Err("$top.root is not a dictionary"@),
                    },
                    None => Err("no $top.root"@),
                },
                _ => Err("no $top dictionary"@),
            },
            _ => Err("no $objects array"@),
        },
        _ => Err("root is not a dictionary"@),
    }
}

/// What [`RawReply::parse`] reads out of a fetch reply's bytes: the decoded
/// property list's envelope, or the error text of the first failure.
pub open spec fn spec_raw_reply(bytes: Seq<u8>) -> Result<(nat, Seq<u8>, Seq<u8>), Seq<char>> {
    match plist_decoding(bytes) {
        Err(m) => Err(m),
        Ok(root) => spec_envelope(root),
    }
}

fn parse_error(msg: &str) -> (e: FetchError)
    ensures
        e matches FetchError::Parse(s) && s@ == msg@,
{
    FetchError::Parse(String::from_str(msg))
}

/// Resolve one `$objects` entry, following a UID indirection if present.
fn resolve<'a>(objects: &'a Vec<PlistValue>, v: &'a PlistValue) -> (r: Result<&'a PlistValue, FetchError>)
    ensures
        match r {
            Ok(x) => spec_resolve(pitems(objects@), v@) == Ok::<PValue, Seq<char>>(x@),
            Err(e) => e matches FetchError::Parse(s) && spec_resolve(pitems(objects@), v@) == Err::<
                PValue,
                Seq<char>,
            >(s@),
        },
{
    match v {
        PlistValue::Uid(uid) => {
            if *uid > usize::MAX as u64 {
                return Err(parse_error("UID out of range"));
            }
            let idx = *uid as usize;
            if idx >= objects.len() {
                let s = String::from_str("UID ").concat(decimal_text(*uid).as_str()).concat(
                    " out of bounds",
                );
                return Err(FetchError::Parse(s));
            }
            Ok(&objects[idx])
        },
        _ => Ok(v),
    }
}

fn string_is(s: &String, lit: &str) -> (r: bool)
    ensures
        r == (s@ == lit@),
{
    *s == String::from_str(lit)
}

impl RawReply {
    /// Parse the keyed-archive bplist envelope a fetch returns into its
    /// `unknown`/`info`/`data` parts. Every failure is a parse error whose
    /// text names the first thing found missing or malformed.
    pub fn parse(bytes: &[u8]) -> (r: Result<RawReply, FetchError>)
        ensures
            match r {
                Ok(raw) => spec_raw_reply(bytes@) == Ok::<(nat, Seq<u8>, Seq<u8>), Seq<char>>(
                    (raw.unknown_len as nat, raw.info@, raw.data@),
                ),
                Err(e) => e matches FetchError::Parse(s) && spec_raw_reply(bytes@) == Err::<
                    (nat, Seq<u8>, Seq<u8>),
                    Seq<char>,
                >(s@),
            },
    {
        let root = match decode_plist(bytes) {
            Ok(v) => v,
            Err(m) => return Err(FetchError::Parse(m)),
        };
        RawReply::from_envelope(&root)
    }

    /// Read the `unknown`/`info`/`data` parts out of a decoded keyed-archive
    /// envelope (see [`spec_envelope`]).
    pub fn from_envelope(root: &PlistValue) -> (r: Result<RawReply, FetchError>)
        ensures
            match r {
                Ok(raw) => spec_envelope(root@) == Ok::<(nat, Seq<u8>, Seq<u8>), Seq<char>>(
                    (raw.unknown_len as nat, raw.info@, raw.data@),
                ),
                Err(e) => e matches FetchError::Parse(s) && spec_envelope(root@) == Err::<
                    (nat, Seq<u8>, Seq<u8>),
                    Seq<char>,
                >(s@),
            },
    {
        let dict = match root.as_dictionary() {
            Some(d) => d,
            None => return Err(parse_error("root is not a dictionary")),
        };
        let objects = match dict.get("$objects") {
            Some(v) => match v.as_array() {
                Some(a) => a,
                None => return Err(parse_error("no $objects array")),
            },
            None => return Err(parse_error("no $objects array")),
        };
        let top = match dict.get("$top") {
            Some(v) => match v.as_dictionary() {
                Some(t) => t,
                None => return Err(parse_error("no $top dictionary")),
            },
            None => return Err(parse_error("no $top dictionary")),
        };
        let root_ref = match top.get("root") {
            Some(v) => v,
            None => return Err(parse_error("no $top.root")),
        };
        let payload = match resolve(objects, root_ref)?.as_dictionary() {
            Some(p) => p,
            None => return Err(parse_error("$top.root is not a dictionary")),
        };
        let keys = match payload.get("NS.keys") {
            Some(v) => match v.as_array() {
                Some(a) => a,
                None => return Err(parse_error("payload has no NS.keys")),
            },
            None => return Err(parse_error("payload has no NS.keys")),
        };
        let vals = match payload.get("NS.objects") {
            Some(v) => match v.as_array() {
                Some(a) => a,
                None => return Err(parse_error("payload has no NS.objects")),
            },
            None => return Err(parse_error("payload has no NS.objects")),
        };
        if keys.len() != vals.len() {
            return Err(parse_error("NS.keys and NS.objects differ in length"));
        }
        let ghost objs = pitems(objects@);
        let ghost ks = pitems(keys@);
        let ghost vs = pitems(vals@);
        let mut unknown_len: Option<usize> = None;
        let mut info: Option<Vec<u8>> = None;
        let mut data: Option<Vec<u8>> = None;
        let mut i: usize = 0;
        while i < keys.len()
            invariant
                i <= keys@.len(),
                keys@.len() == vals@.len(),
                objs == pitems(objects@),
                ks == pitems(keys@),
                vs == pitems(vals@),
                spec_envelope(root@) == finish_envelope(
                    envelope_pairs(objs, ks, vs, 0, (None, None, None)),
                ),
                envelope_pairs(objs, ks, vs, 0, (None, None, None)) == envelope_pairs(
                    objs,
                    ks,
                    vs,
                    i as int,
                    (
                        match unknown_len {
                            Some(n) => Some(n as nat),
                            None => None,
                        },
                        match info {
                            Some(x) => Some(x@),
                            None => None,
                        },
                        match data {
                            Some(x) => Some(x@),
                            None => None,
                        },
                    ),
                ),
            decreases keys@.len() - i,
        {
            let name = match resolve(objects, &keys[i])?.as_string() {
                Some(s) => s,
                None => return Err(parse_error("a payload key is not a string")),
            };
            let value = resolve(objects, &vals[i])?;
            if string_is(name, "unknown") {
                let arr = match value.as_dictionary() {
                    Some(d) => match d.get("NS.objects") {
                        Some(o) => match o.as_array() {
                            Some(a) => a,
                            None => return Err(parse_error("`unknown` is not an NSArray")),
                        },
                        None => return Err(parse_error("`unknown` is not an NSArray")),
                    },
                    None => return Err(parse_error("`unknown` is not an NSArray")),
                };
                unknown_len = Some(arr.len());
            } else if string_is(name, "info") {
                match value.as_data() {
                    Some(x) => {
                        info = Some(vstd::slice::slice_to_vec(x.as_slice()));
                    },
                    None => return Err(parse_error("`info` is not data")),
                }
            } else if string_is(name, "data") {
                match value.as_data() {
                    Some(x) => {
                        data = Some(vstd::slice::slice_to_vec(x.as_slice()));
                    },
                    None => return Err(parse_error("`data` is not data")),
                }
            }
            i = i + 1;
        }
        let unknown_len = match unknown_len {
            Some(n) => n,
            None => return Err(parse_error("missing key `unknown`")),
        };
        let info = match info {
            Some(x) => x,
            None => return Err(parse_error("missing key `info`")),
        };
        let data = match data {
            Some(x) => x,
            None => return Err(parse_error("missing key `data`")),
        };
        Ok(RawReply { unknown_len, info, data })
    }
}

} // verus!
