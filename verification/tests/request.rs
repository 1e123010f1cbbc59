use gputools_replay::replay::request::{Point3D, Region, Size, TextureRequest};

#[test]
fn natural_is_zero_region_plane_zero() {
    let r = TextureRequest::natural(42);
    assert_eq!(r.stream_ref, 42);
    assert_eq!(r.region, Region::zero());
    assert_eq!(r.plane, 0);
    assert_eq!(r.slice, 0);
    assert_eq!(r.level, 0);
}

#[test]
fn with_slice_level_sets_both_fields() {
    let r = TextureRequest::natural(1).with_slice_level(1, 3);
    assert_eq!(r.slice, 1);
    assert_eq!(r.level, 3);
}

#[test]
fn region_conversion_forces_depth_one() {
    let region = Region {
        origin: Point3D { x: 1, y: 2, z: 3 },
        size: Size {
            width: 64,
            height: 64,
        },
    };
    let wire = region.to_gt();
    assert_eq!(wire.origin.x, 1);
    assert_eq!(wire.origin.y, 2);
    assert_eq!(wire.origin.z, 3);
    assert_eq!(wire.size.width, 64);
    assert_eq!(wire.size.height, 64);
    assert_eq!(wire.size.depth, 1);
}

#[test]
fn new_keeps_the_region_and_plane() {
    let region = Region {
        origin: Point3D { x: 4, y: 0, z: 0 },
        size: Size { width: 8, height: 2 },
    };
    let r = TextureRequest::new(9, region, 1);
    assert_eq!(r.stream_ref, 9);
    assert_eq!(r.region, region);
    assert_eq!(r.plane, 1);
    assert_eq!((r.slice, r.level), (0, 0));
    assert_eq!(Region::default(), Region::zero());
}
