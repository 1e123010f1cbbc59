use gputools_replay::hl::bytes::Payload;
use gputools_replay::hl::describe::{
    describe_textures, zip_best_effort, DescribedTexture, TextureDescriptor,
};
use gputools_replay::hl::image::Texture;
use std::sync::Arc;

fn d(off: u64, w: u32, h: u32, fmt: u32, mip: u32) -> TextureDescriptor {
    TextureDescriptor {
        store0_offset: off,
        format: fmt,
        texture_type: 2,
        width: w,
        height: h,
        depth: 1,
        mip_levels: mip,
        array_length: 1,
        sample_count: 1,
        usage: 0,
        texture_id: 0,
    }
}

fn tex() -> Texture {
    sr_tex(0, 1, 1)
}

fn sr_tex(stream_ref: u64, width: u32, height: u16) -> Texture {
    let buf = Arc::new(vec![0u8; 4]);
    Texture::for_test(stream_ref, width, height, 4, 80, Payload::new(buf, 0, 4))
}

#[test]
fn typed_texture_type_and_usage_wrap_the_raw_descriptor_fields() {
    let desc = TextureDescriptor {
        texture_type: 8,
        usage: 0b0101,
        ..d(0, 1, 1, 80, 1)
    };
    let described = DescribedTexture {
        texture: tex(),
        descriptor: Some(desc),
    };
    assert_eq!(described.texture_type(), Some(8));
    assert_eq!(described.usage(), Some(0b0101));
    assert_eq!(described.mip_count(), Some(1));
    assert_eq!(described.array_len(), Some(1));

    let bare = DescribedTexture {
        texture: tex(),
        descriptor: None,
    };
    assert_eq!(bare.texture_type(), None);
    assert_eq!(bare.usage(), None);
    assert_eq!(bare.mip_count(), None);
}

#[test]
fn zips_in_order_including_intra_run() {
    let descs = [
        d(505, 64, 64, 80, 1),
        d(575, 64, 64, 80, 3),
        d(666, 64, 64, 80, 7),
    ];
    let keys = [(64, 64, 80), (64, 64, 80), (64, 64, 80)];
    let (got, unplaced, transparent) = zip_best_effort(&keys, &descs);
    assert_eq!(got, vec![Some(0), Some(1), Some(2)]);
    assert!(unplaced.is_empty());
    assert!(transparent.is_empty());
}

#[test]
fn trailing_extra_ref_gets_none() {
    let descs = [d(1, 32, 32, 80, 1), d(2, 64, 64, 80, 1), d(3, 64, 64, 80, 1)];
    let keys = [(32, 32, 80), (64, 64, 80), (64, 64, 80), (64, 64, 80)];
    let (got, unplaced, transparent) = zip_best_effort(&keys, &descs);
    assert_eq!(got, vec![Some(0), Some(1), Some(2), None]);
    assert!(unplaced.is_empty());
    assert!(transparent.is_empty());
}

#[test]
fn unplaceable_descriptor_lands_in_unplaced_not_an_error() {
    let descs = [d(1, 64, 64, 80, 1), d(2, 64, 64, 80, 1)];
    let keys = [(64, 64, 80)];
    let (got, unplaced, transparent) = zip_best_effort(&keys, &descs);
    assert_eq!(got, vec![Some(0)]);
    assert_eq!(unplaced, vec![1]);
    assert!(transparent.is_empty());
}

#[test]
fn combined_ds_descriptors_are_transparent() {
    let descs = [d(1, 64, 64, 80, 1), d(2, 64, 64, 260, 1), d(3, 64, 64, 260, 1)];
    let keys = [(64, 64, 80), (64, 64, 252), (64, 64, 252)];
    let (got, unplaced, transparent) = zip_best_effort(&keys, &descs);
    assert_eq!(got, vec![Some(0), None, None]);
    assert!(unplaced.is_empty());
    assert_eq!(transparent, vec![1, 2]);
}

#[test]
fn combined_ds_interspersed_is_skipped() {
    let descs = [d(1, 64, 64, 80, 1), d(2, 64, 64, 260, 1), d(3, 64, 64, 80, 1)];
    let keys = [(64, 64, 80), (64, 64, 252), (64, 64, 80)];
    let (got, unplaced, transparent) = zip_best_effort(&keys, &descs);
    assert_eq!(got, vec![Some(0), None, Some(2)]);
    assert!(unplaced.is_empty());
    assert_eq!(transparent, vec![1]);
}

#[test]
fn describe_textures_puts_an_unmatched_descriptor_in_unplaced() {
    let descs = [d(1, 64, 64, 80, 1), d(2, 32, 32, 80, 1)];
    let texs = [sr_tex(1, 64, 64)];
    let got = describe_textures(&texs, &descs);
    assert_eq!(got.per_texture, vec![Some(descs[0])]);
    assert_eq!(got.unplaced, vec![descs[1]]);
    assert!(got.transparent.is_empty());
}

#[test]
fn describe_textures_combined_ds_never_lands_in_unplaced() {
    let descs = [d(1, 64, 64, 80, 1), d(2, 64, 64, 260, 1)];
    let texs = [sr_tex(1, 64, 64)];
    let got = describe_textures(&texs, &descs);
    assert_eq!(got.per_texture, vec![Some(descs[0])]);
    assert!(got.unplaced.is_empty());
    assert_eq!(got.transparent, vec![descs[1]]);
}

#[test]
fn describe_textures_partitions_matched_unplaced_and_transparent() {
    let descs = [
        d(1, 64, 64, 80, 1),
        d(2, 64, 64, 260, 1),
        d(3, 64, 64, 260, 1),
        d(4, 32, 32, 80, 1),
    ];
    let texs = [sr_tex(1, 64, 64)];
    let got = describe_textures(&texs, &descs);
    assert_eq!(got.per_texture, vec![Some(descs[0])]);
    assert_eq!(got.unplaced, vec![descs[3]]);
    assert_eq!(got.transparent, vec![descs[1], descs[2]]);

    let some_count = got.per_texture.iter().filter(|d| d.is_some()).count();
    assert_eq!(
        some_count + got.unplaced.len() + got.transparent.len(),
        descs.len()
    );
}

#[test]
fn describe_textures_with_no_manifest_is_all_none_and_empty_unplaced() {
    let texs = [sr_tex(1, 64, 64), sr_tex(2, 32, 32)];
    let got = describe_textures(&texs, &[]);
    assert_eq!(got.per_texture, vec![None, None]);
    assert!(got.unplaced.is_empty());
    assert!(got.transparent.is_empty());
}

#[test]
fn textures_are_joined_by_stream_reference_not_input_order() {
    // Fetched out of order, with a duplicate stream reference: the join
    // walks refs 1, 2, 3 and the duplicate of ref 2 gets nothing.
    let descs = [d(10, 8, 8, 80, 1), d(20, 16, 16, 80, 1), d(30, 32, 32, 80, 1)];
    let texs = [
        sr_tex(3, 32, 32),
        sr_tex(2, 16, 16),
        sr_tex(1, 8, 8),
        sr_tex(2, 16, 16),
    ];
    let got = describe_textures(&texs, &descs);
    assert_eq!(
        got.per_texture,
        vec![Some(descs[2]), Some(descs[1]), Some(descs[0]), None]
    );
    assert!(got.unplaced.is_empty());
}
