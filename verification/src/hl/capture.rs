//! The logic of a capture session beyond the fetch itself: the requests a
//! call builds, the handles a decoded reply splits into (each viewing its
//! record's payload in one shared buffer), and what the manifest's state
//! reports.

use crate::hl::accel::AccelStructure;
use crate::hl::buffer::{Buffer, Heap};
use crate::hl::bytes::Payload;
use crate::hl::describe::{DescribedTexture, TextureDescriptor};
use crate::hl::image::{Texture, Wireframe, wire_bpp};
use crate::hl::pipeline::Pipeline;
use crate::replay::reply::{
    AccelRecord, BufferRecord, HeapRecord, PipelineRecord, Record, Reply, TextureRecord,
    WireframeRecord,
};
use crate::replay::request::{DispatchUid, Region, TextureRequest, WireframeRequest};
use std::sync::Arc;
use vstd::prelude::*;

verus! {

broadcast use vstd::std_specs::vec::group_vec_axioms;

/// Whether the bundle's manifest could be read, and what it holds.
#[derive(Debug, Clone, Copy, PartialEq, Eq, Structural)]
pub enum ManifestStatus {
    /// The manifest was read and describes this many textures.
    Described(usize),
    /// The manifest was read but describes no textures.
    NoDescriptors,
    /// The manifest could not be read or parsed.
    Unparseable,
}

/// What the manifest's state reports: `None` when it could not be read,
/// else the number of textures it describes.
pub fn manifest_status_of(texture_count: Option<usize>) -> (r: ManifestStatus)
    ensures
        r == match texture_count {
            None => ManifestStatus::Unparseable,
            Some(n) => if n == 0 {
                ManifestStatus::NoDescriptors
            } else {
                ManifestStatus::Described(n)
            },
        },
{
    match texture_count {
        None => ManifestStatus::Unparseable,
        Some(n) => if n == 0 {
            ManifestStatus::NoDescriptors
        } else {
            ManifestStatus::Described(n)
        },
    }
}

/// Which aspect of a depth/stencil texture to fetch.
#[derive(Debug, Clone, Copy, PartialEq, Eq, Structural)]
pub enum Aspect {
    /// The depth aspect (plane 0).
    Depth,
    /// The stencil aspect (plane 1).
    Stencil,
}

impl Aspect {
    /// The plane the aspect is fetched as.
    pub open spec fn spec_plane(self) -> u32 {
        match self {
            Aspect::Depth => 0,
            Aspect::Stencil => 1,
        }
    }

    /// The plane the aspect is fetched as: depth 0, stencil 1.
    pub fn plane(self) -> (r: u32)
        ensures
            r == self.spec_plane(),
    {
        match self {
            Aspect::Depth => 0,
            Aspect::Stencil => 1,
        }
    }
}

/// Whole-texture requests, one per stream reference in order.
pub fn natural_requests(refs: &[u64]) -> (r: Vec<TextureRequest>)
    ensures
        r@.len() == refs@.len(),
        forall|i: int|
            0 <= i < refs@.len() ==> (#[trigger] r@[i]).stream_ref == refs@[i] && r@[i].region
                == Region::spec_zero() && r@[i].plane == 0 && r@[i].slice == 0 && r@[i].level == 0,
{
    let mut out: Vec<TextureRequest> = Vec::new();
    let mut i: usize = 0;
    while i < refs.len()
        invariant
            i <= refs@.len(),
            out@.len() == i,
            forall|k: int|
                0 <= k < i ==> (#[trigger] out@[k]).stream_ref == refs@[k] && out@[k].region
                    == Region::spec_zero() && out@[k].plane == 0 && out@[k].slice == 0
                    && out@[k].level == 0,
        decreases refs@.len() - i,
    {
        out.push(TextureRequest::natural(refs[i]));
        i = i + 1;
    }
    out
}

/// Requests for one aspect of each texture, in order: the natural region
/// of the aspect's plane.
pub fn aspect_requests(refs: &[u64], aspect: Aspect) -> (r: Vec<TextureRequest>)
    ensures
        r@.len() == refs@.len(),
        forall|i: int|
            0 <= i < refs@.len() ==> (#[trigger] r@[i]).stream_ref == refs@[i] && r@[i].region
                == Region::spec_zero() && r@[i].plane == aspect.spec_plane() && r@[i].slice == 0
                && r@[i].level == 0,
{
    let plane = aspect.plane();
    let mut out: Vec<TextureRequest> = Vec::new();
    let mut i: usize = 0;
    while i < refs.len()
        invariant
            plane == aspect.spec_plane(),
            i <= refs@.len(),
            out@.len() == i,
            forall|k: int|
                0 <= k < i ==> (#[trigger] out@[k]).stream_ref == refs@[k] && out@[k].region
                    == Region::spec_zero() && out@[k].plane == plane && out@[k].slice == 0
                    && out@[k].level == 0,
        decreases refs@.len() - i,
    {
        out.push(TextureRequest::new(refs[i], Region::zero(), plane));
        i = i + 1;
    }
    out
}

/// Wireframe requests, one per draw in order, all solid or all lines.
pub fn wireframe_requests(draws: &[u64], solid: bool) -> (r: Vec<WireframeRequest>)
    ensures
        r@.len() == draws@.len(),
        forall|i: int|
            0 <= i < draws@.len() ==> (#[trigger] r@[i]).dispatch_uid == DispatchUid(draws@[i])
                && r@[i].solid == solid,
{
    let mut out: Vec<WireframeRequest> = Vec::new();
    let mut i: usize = 0;
    while i < draws.len()
        invariant
            i <= draws@.len(),
            out@.len() == i,
            forall|k: int|
                0 <= k < i ==> (#[trigger] out@[k]).dispatch_uid == DispatchUid(draws@[k])
                    && out@[k].solid == solid,
        decreases draws@.len() - i,
    {
        out.push(WireframeRequest { dispatch_uid: DispatchUid(draws[i]), solid });
        i = i + 1;
    }
    out
}

/// Shares the payload buffer with `Arc::clone`: another pointer to the
/// same bytes.
#[verifier::external_body]
fn share(buf: &Arc<Vec<u8>>) -> (r: Arc<Vec<u8>>)
    ensures
        r@ == buf@,
{
    Arc::clone(buf)
}

/// The payload bytes record `r` of a reply with data `data` names.
pub open spec fn record_bytes<T: Record>(data: Seq<u8>, r: T) -> Seq<u8> {
    data.subrange(r.spec_data_range().0, r.spec_data_range().0 + r.spec_data_range().1)
}

/// The reply's data in a buffer the handles share, and each record's
/// payload in it.
fn shared_payloads<T: Record>(reply: &Reply<T>) -> (r: Vec<Payload>)
    ensures
        r@.len() == reply.spec_records().len(),
        forall|k: int|
            0 <= k < r@.len() ==> (#[trigger] r@[k]).spec_bytes() == record_bytes(
                reply.spec_raw().data@,
                reply.spec_records()[k],
            ),
{
    let data = &reply.raw().data;
    let buf = Arc::new(vstd::slice::slice_to_vec(data.as_slice()));
    let records = reply.records();
    let mut out: Vec<Payload> = Vec::new();
    let mut k: usize = 0;
    while k < records.len()
        invariant
            buf@ == reply.spec_raw().data@,
            records@ == reply.spec_records(),
            forall|j: int|
                0 <= j < records@.len() ==> #[trigger] records@[j].spec_data_range().0
                    + records@[j].spec_data_range().1 <= reply.spec_raw().data@.len(),
            k <= records@.len(),
            out@.len() == k,
            forall|j: int|
                0 <= j < k ==> (#[trigger] out@[j]).spec_bytes() == record_bytes(
                    reply.spec_raw().data@,
                    records@[j],
                ),
        decreases records@.len() - k,
    {
        let (o, n) = records[k].data_range();
        assert(records@[k as int].spec_data_range().0 + records@[k as int].spec_data_range().1
            <= reply.spec_raw().data@.len());
        out.push(Payload::new(share(&buf), o, n));
        k = k + 1;
    }
    out
}

/// The textures a texture reply holds, one per record in order, each
/// viewing its record's payload.
pub fn textures_from(reply: &Reply<TextureRecord>) -> (r: Vec<Texture>)
    ensures
        r@.len() == reply.spec_records().len(),
        forall|k: int|
            0 <= k < r@.len() ==> {
                let rec = reply.spec_records()[k];
                let t = #[trigger] r@[k];
                &&& t.spec_stream_ref() == rec.stream_ref
                &&& t.spec_width() == rec.width
                &&& t.spec_height() == rec.height
                &&& t.spec_depth() == rec.depth
                &&& t.spec_bytes_per_row() == rec.bytes_per_row
                &&& t.spec_bytes_per_image() == rec.bytes_per_image
                &&& t.spec_pixel_format() == rec.pixel_format
                &&& t.spec_plane() == rec.plane
                &&& t.spec_slice() == rec.slice
                &&& t.spec_level() == rec.level
                &&& t.spec_raw_bytes() == record_bytes(reply.spec_raw().data@, rec)
            },
{
    let mut payloads = shared_payloads(reply);
    let records = reply.records();
    let mut out: Vec<Texture> = Vec::new();
    let mut k: usize = 0;
    let ghost all = payloads@;
    let total = payloads.len();
    while payloads.len() > 0
        invariant
            total == all.len(),
            records@ == reply.spec_records(),
            all.len() == records@.len(),
            forall|j: int|
                0 <= j < all.len() ==> (#[trigger] all[j]).spec_bytes() == record_bytes(
                    reply.spec_raw().data@,
                    records@[j],
                ),
            k + payloads@.len() == all.len(),
            forall|j: int| 0 <= j < payloads@.len() ==> payloads@[j] == all[k + j],
            out@.len() == k,
            forall|j: int|
                0 <= j < k ==> {
                    let rec = records@[j];
                    let t = #[trigger] out@[j];
                    &&& t.spec_stream_ref() == rec.stream_ref
                    &&& t.spec_width() == rec.width
                    &&& t.spec_height() == rec.height
                    &&& t.spec_depth() == rec.depth
                    &&& t.spec_bytes_per_row() == rec.bytes_per_row
                    &&& t.spec_bytes_per_image() == rec.bytes_per_image
                    &&& t.spec_pixel_format() == rec.pixel_format
                    &&& t.spec_plane() == rec.plane
                    &&& t.spec_slice() == rec.slice
                    &&& t.spec_level() == rec.level
                    &&& t.spec_raw_bytes() == record_bytes(reply.spec_raw().data@, rec)
                },
        decreases payloads@.len(),
    {
        let p = payloads.remove(0);
        assert(p == all[k as int]);
        out.push(Texture::from_parts(&records[k], p));
        k = k + 1;
    }
    out
}

/// The buffers a buffer reply holds, one per record in order, each viewing
/// its record's payload.
pub fn buffers_from(reply: &Reply<BufferRecord>) -> (r: Vec<Buffer>)
    ensures
        r@.len() == reply.spec_records().len(),
        forall|k: int|
            0 <= k < r@.len() ==> {
                let rec = reply.spec_records()[k];
                let t = #[trigger] r@[k];
                &&& t.spec_stream_ref() == rec.stream_ref
                &&& t.spec_raw_bytes() == record_bytes(reply.spec_raw().data@, rec)
            },
{
    let mut payloads = shared_payloads(reply);
    let records = reply.records();
    let mut out: Vec<Buffer> = Vec::new();
    let mut k: usize = 0;
    let ghost all = payloads@;
    let total = payloads.len();
    while payloads.len() > 0
        invariant
            total == all.len(),
            records@ == reply.spec_records(),
            all.len() == records@.len(),
            forall|j: int|
                0 <= j < all.len() ==> (#[trigger] all[j]).spec_bytes() == record_bytes(
                    reply.spec_raw().data@,
                    records@[j],
                ),
            k + payloads@.len() == all.len(),
            forall|j: int| 0 <= j < payloads@.len() ==> payloads@[j] == all[k + j],
            out@.len() == k,
            forall|j: int|
                0 <= j < k ==> {
                    let rec = records@[j];
                    let t = #[trigger] out@[j];
                    &&& t.spec_stream_ref() == rec.stream_ref
                    &&& t.spec_raw_bytes() == record_bytes(reply.spec_raw().data@, rec)
                },
        decreases payloads@.len(),
    {
        let p = payloads.remove(0);
        assert(p == all[k as int]);
        out.push(Buffer::from_parts(records[k].stream_ref as u64, p));
        k = k + 1;
    }
    out
}

/// The heaps a heap reply holds, one per record in order, each viewing its
/// record's payload.
pub fn heaps_from(reply: &Reply<HeapRecord>) -> (r: Vec<Heap>)
    ensures
        r@.len() == reply.spec_records().len(),
        forall|k: int|
            0 <= k < r@.len() ==> {
                let rec = reply.spec_records()[k];
                let t = #[trigger] r@[k];
                &&& t.spec_stream_ref() == rec.stream_ref
                &&& t.spec_raw_bytes() == record_bytes(reply.spec_raw().data@, rec)
            },
{
    let mut payloads = shared_payloads(reply);
    let records = reply.records();
    let mut out: Vec<Heap> = Vec::new();
    let mut k: usize = 0;
    let ghost all = payloads@;
    let total = payloads.len();
    while payloads.len() > 0
        invariant
            total == all.len(),
            records@ == reply.spec_records(),
            all.len() == records@.len(),
            forall|j: int|
                0 <= j < all.len() ==> (#[trigger] all[j]).spec_bytes() == record_bytes(
                    reply.spec_raw().data@,
                    records@[j],
                ),
            k + payloads@.len() == all.len(),
            forall|j: int| 0 <= j < payloads@.len() ==> payloads@[j] == all[k + j],
            out@.len() == k,
            forall|j: int|
                0 <= j < k ==> {
                    let rec = records@[j];
                    let t = #[trigger] out@[j];
                    &&& t.spec_stream_ref() == rec.stream_ref
                    &&& t.spec_raw_bytes() == record_bytes(reply.spec_raw().data@, rec)
                },
        decreases payloads@.len(),
    {
        let p = payloads.remove(0);
        assert(p == all[k as int]);
        out.push(Heap::from_parts(records[k].stream_ref as u64, p));
        k = k + 1;
    }
    out
}

/// The acceleration structures an acceleration-structure reply holds, one
/// per record in order, each viewing its record's payload.
pub fn accels_from(reply: &Reply<AccelRecord>) -> (r: Vec<AccelStructure>)
    ensures
        r@.len() == reply.spec_records().len(),
        forall|k: int|
            0 <= k < r@.len() ==> {
                let rec = reply.spec_records()[k];
                let t = #[trigger] r@[k];
                &&& t.spec_raw_bytes() == record_bytes(reply.spec_raw().data@, rec)
            },
{
    let mut payloads = shared_payloads(reply);
    let records = reply.records();
    let mut out: Vec<AccelStructure> = Vec::new();
    let mut k: usize = 0;
    let ghost all = payloads@;
    let total = payloads.len();
    while payloads.len() > 0
        invariant
            total == all.len(),
            records@ == reply.spec_records(),
            all.len() == records@.len(),
            forall|j: int|
                0 <= j < all.len() ==> (#[trigger] all[j]).spec_bytes() == record_bytes(
                    reply.spec_raw().data@,
                    records@[j],
                ),
            k + payloads@.len() == all.len(),
            forall|j: int| 0 <= j < payloads@.len() ==> payloads@[j] == all[k + j],
            out@.len() == k,
            forall|j: int|
                0 <= j < k ==> {
                    let rec = records@[j];
                    let t = #[trigger] out@[j];
                    &&& t.spec_raw_bytes() == record_bytes(reply.spec_raw().data@, rec)
                },
        decreases payloads@.len(),
    {
        let p = payloads.remove(0);
        assert(p == all[k as int]);
        out.push(AccelStructure::from_parts(p));
        k = k + 1;
    }
    out
}

/// The pipelines a pipeline-binaries reply holds, one per record in order,
/// each viewing its record's nested bplist.
pub fn pipelines_from(reply: &Reply<PipelineRecord>) -> (r: Vec<Pipeline>)
    ensures
        r@.len() == reply.spec_records().len(),
        forall|k: int|
            0 <= k < r@.len() ==> {
                let rec = reply.spec_records()[k];
                let t = #[trigger] r@[k];
                &&& t.spec_pipeline_id() == rec.pipeline_id
                &&& t.spec_handle() == rec.handle
                &&& t.spec_raw_bytes() == record_bytes(reply.spec_raw().data@, rec)
            },
{
    let mut payloads = shared_payloads(reply);
    let records = reply.records();
    let mut out: Vec<Pipeline> = Vec::new();
    let mut k: usize = 0;
    let ghost all = payloads@;
    let total = payloads.len();
    while payloads.len() > 0
        invariant
            total == all.len(),
            records@ == reply.spec_records(),
            all.len() == records@.len(),
            forall|j: int|
                0 <= j < all.len() ==> (#[trigger] all[j]).spec_bytes() == record_bytes(
                    reply.spec_raw().data@,
                    records@[j],
                ),
            k + payloads@.len() == all.len(),
            forall|j: int| 0 <= j < payloads@.len() ==> payloads@[j] == all[k + j],
            out@.len() == k,
            forall|j: int|
                0 <= j < k ==> {
                    let rec = records@[j];
                    let t = #[trigger] out@[j];
                    &&& t.spec_pipeline_id() == rec.pipeline_id
                    &&& t.spec_handle() == rec.handle
                    &&& t.spec_raw_bytes() == record_bytes(reply.spec_raw().data@, rec)
                },
        decreases payloads@.len(),
    {
        let p = payloads.remove(0);
        assert(p == all[k as int]);
        out.push(Pipeline::from_parts(records[k].pipeline_id, records[k].handle, p));
        k = k + 1;
    }
    out
}

/// The wireframes a wireframe reply holds, one per record in order, each
/// viewing its record's payload with tightly packed rows.
pub fn wireframes_from(reply: &Reply<WireframeRecord>) -> (r: Vec<Wireframe>)
    requires
        forall|k: int|
            0 <= k < reply.spec_records().len() ==> (#[trigger] reply.spec_records()[k]).width * wire_bpp(
                reply.spec_records()[k].pixel_format,
            ) <= u32::MAX,
    ensures
        r@.len() == reply.spec_records().len(),
        forall|k: int|
            0 <= k < r@.len() ==> {
                let rec = reply.spec_records()[k];
                let t = #[trigger] r@[k];
                &&& t.spec_dispatch_uid() == rec.dispatch_uid
                &&& t.spec_width() == rec.width
                &&& t.spec_height() == rec.height
                &&& t.spec_bytes_per_row() == rec.width * wire_bpp(rec.pixel_format)
                &&& t.spec_pixel_format() == rec.pixel_format
                &&& t.spec_raw_bytes() == record_bytes(reply.spec_raw().data@, rec)
            },
{
    let mut payloads = shared_payloads(reply);
    let records = reply.records();
    let mut out: Vec<Wireframe> = Vec::new();
    let mut k: usize = 0;
    let ghost all = payloads@;
    let total = payloads.len();
    while payloads.len() > 0
        invariant
            total == all.len(),
            records@ == reply.spec_records(),
            forall|k: int|
                0 <= k < reply.spec_records().len() ==> (#[trigger] reply.spec_records()[k]).width * wire_bpp(
                        reply.spec_records()[k].pixel_format,
                ) <= u32::MAX,
            all.len() == records@.len(),
            forall|j: int|
                0 <= j < all.len() ==> (#[trigger] all[j]).spec_bytes() == record_bytes(
                    reply.spec_raw().data@,
                    records@[j],
                ),
            k + payloads@.len() == all.len(),
            forall|j: int| 0 <= j < payloads@.len() ==> payloads@[j] == all[k + j],
            out@.len() == k,
            forall|j: int|
                0 <= j < k ==> {
                    let rec = records@[j];
                    let t = #[trigger] out@[j];
                    &&& t.spec_dispatch_uid() == rec.dispatch_uid
                    &&& t.spec_width() == rec.width
                    &&& t.spec_height() == rec.height
                    &&& t.spec_bytes_per_row() == rec.width * wire_bpp(rec.pixel_format)
                    &&& t.spec_pixel_format() == rec.pixel_format
                    &&& t.spec_raw_bytes() == record_bytes(reply.spec_raw().data@, rec)
                },
        decreases payloads@.len(),
    {
        let p = payloads.remove(0);
        assert(p == all[k as int]);
        out.push(Wireframe::from_parts(&records[k], p));
        k = k + 1;
    }
    out
}

/// Fetched textures paired with their descriptors, position by position
/// (as far as both lists go).
pub fn described_textures(texs: Vec<Texture>, per_texture: Vec<Option<TextureDescriptor>>) -> (r: Vec<
    DescribedTexture,
>)
    ensures
        r@.len() == if texs@.len() < per_texture@.len() {
            texs@.len()
        } else {
            per_texture@.len()
        },
        forall|k: int|
            0 <= k < r@.len() ==> (#[trigger] r@[k]).texture == texs@[k] && r@[k].descriptor
                == per_texture@[k],
{
    let ghost ts = texs@;
    let ghost ds = per_texture@;
    let mut texs = texs;
    let mut per_texture = per_texture;
    let mut out: Vec<DescribedTexture> = Vec::new();
    let mut k: usize = 0;
    let total = texs.len();
    while texs.len() > 0 && per_texture.len() > 0
        invariant
            total == ts.len(),
            k + texs@.len() == ts.len(),
            k + per_texture@.len() == ds.len(),
            forall|j: int| 0 <= j < texs@.len() ==> texs@[j] == ts[k + j],
            forall|j: int| 0 <= j < per_texture@.len() ==> per_texture@[j] == ds[k + j],
            out@.len() == k,
            forall|j: int| 0 <= j < k ==> (#[trigger] out@[j]).texture == ts[j] && out@[j].descriptor == ds[j],
        decreases texs@.len(),
    {
        let texture = texs.remove(0);
        let descriptor = per_texture.remove(0);
        out.push(DescribedTexture { texture, descriptor });
        k = k + 1;
    }
    out
}

} // verus!
