use gputools_replay::hl::capture::{
    aspect_requests, buffers_from, described_textures, manifest_status_of, natural_requests,
    pipelines_from, textures_from, wireframe_requests, Aspect, ManifestStatus,
};
use gputools_replay::hl::describe::TextureDescriptor;
use gputools_replay::replay::reply::{
    BufferRecord, PipelineRecord, RawReply, Reply, TextureRecord, DATA_OFFSET_OFF, HEIGHT_OFF,
    PIPELINE_ID_OFF, PIXEL_FORMAT_OFF, SIZE_OFF, STREAM_REF_OFF, WIDTH_OFF, BYTES_PER_ROW_OFF,
};
use gputools_replay::replay::request::{DispatchUid, Region};

fn chunk(fields: &[(usize, u32)]) -> Vec<u8> {
    let mut c = vec![0u8; 80];
    for &(o, v) in fields {
        c[o..o + 4].copy_from_slice(&v.to_le_bytes());
    }
    c
}

#[test]
fn the_manifest_state_is_reported() {
    assert_eq!(manifest_status_of(None), ManifestStatus::Unparseable);
    assert_eq!(manifest_status_of(Some(0)), ManifestStatus::NoDescriptors);
    assert_eq!(manifest_status_of(Some(7)), ManifestStatus::Described(7));
}

#[test]
fn requests_are_built_one_per_reference() {
    let reqs = natural_requests(&[4, 5]);
    assert_eq!(reqs.len(), 2);
    assert_eq!(reqs[1].stream_ref, 5);
    assert_eq!(reqs[1].region, Region::zero());
    let stencil = aspect_requests(&[4], Aspect::Stencil);
    assert_eq!(stencil[0].plane, 1);
    assert_eq!(aspect_requests(&[4], Aspect::Depth)[0].plane, 0);
    let wf = wireframe_requests(&[11, 12], true);
    assert_eq!(wf[1].dispatch_uid, DispatchUid(12));
    assert!(wf[0].solid);
}

#[test]
fn a_reply_splits_into_handles_viewing_their_payloads() {
    let mut info = chunk(&[
        (STREAM_REF_OFF, 21),
        (DATA_OFFSET_OFF, 0),
        (SIZE_OFF, 4),
        (WIDTH_OFF, 1),
        (HEIGHT_OFF, 1),
        (PIXEL_FORMAT_OFF, 80),
        (BYTES_PER_ROW_OFF, 4),
    ]);
    info.extend(chunk(&[(STREAM_REF_OFF, 22), (DATA_OFFSET_OFF, 4), (SIZE_OFF, 2)]));
    let raw = RawReply { unknown_len: 0, info, data: vec![1, 2, 3, 4, 5, 6] };
    let reply = Reply::<TextureRecord>::decode(raw).unwrap();
    let texs = textures_from(&reply);
    assert_eq!(texs.len(), 2);
    assert_eq!(texs[0].stream_ref(), 21);
    assert_eq!(texs[0].raw_bytes(), &[1, 2, 3, 4]);
    assert_eq!(texs[0].pixel_bytes(4).unwrap(), &[1, 2, 3, 4]);
    assert_eq!(texs[1].raw_bytes(), &[5, 6]);

    let described = described_textures(texs, vec![None, Some(TextureDescriptor {
        store0_offset: 1,
        format: 80,
        texture_type: 2,
        width: 1,
        height: 1,
        depth: 1,
        mip_levels: 3,
        array_length: 1,
        sample_count: 1,
        usage: 0,
        texture_id: 0,
    })]);
    assert_eq!(described.len(), 2);
    assert_eq!(described[1].mip_count(), Some(3));
    assert_eq!(described[0].texture.stream_ref(), 21);
}

#[test]
fn buffer_and_pipeline_replies_split_too() {
    let info = chunk(&[(STREAM_REF_OFF, 9), (DATA_OFFSET_OFF, 1), (SIZE_OFF, 2)]);
    let reply = Reply::<BufferRecord>::decode(RawReply { unknown_len: 0, info, data: vec![7, 8, 9] }).unwrap();
    let bufs = buffers_from(&reply);
    assert_eq!(bufs[0].stream_ref(), 9);
    assert_eq!(bufs[0].raw_bytes(), &[8, 9]);

    let info = chunk(&[(PIPELINE_ID_OFF, 5), (DATA_OFFSET_OFF, 0), (SIZE_OFF, 3)]);
    let reply = Reply::<PipelineRecord>::decode(RawReply { unknown_len: 0, info, data: vec![7, 8, 9] }).unwrap();
    let pipes = pipelines_from(&reply);
    assert_eq!(pipes[0].pipeline_id(), 5);
    assert_eq!(pipes[0].raw_bytes(), &[7, 8, 9]);
}
