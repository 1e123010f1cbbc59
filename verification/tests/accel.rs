use gputools_replay::hl::accel::AccelStructure;
use gputools_replay::hl::bytes::Payload;
use gputools_replay::hl::error::Error;
use std::sync::Arc;

fn synthetic_block() -> Vec<u8> {
    let mut b = vec![0u8; 1816];
    b[0x08..0x10].copy_from_slice(&1816u64.to_le_bytes());
    b[0x2c..0x30].copy_from_slice(&1u32.to_le_bytes());
    let aabb: [f32; 6] = [1.0, 2.0, 3.0, 4.0, 5.0, 6.0];
    b[0x0a0..0x0b8].copy_from_slice(bytemuck::cast_slice(&aabb));
    let triangle: [f32; 9] = [0.0, 0.0, 0.0, 1.0, 0.0, 0.0, 0.0, 1.0, 0.0];
    b[0x418..0x418 + 36].copy_from_slice(bytemuck::cast_slice(&triangle));
    b
}

fn accel(bytes: &[u8]) -> AccelStructure {
    AccelStructure::from_parts(Payload::new(Arc::new(bytes.to_vec()), 0, bytes.len()))
}

fn triangles(a: &AccelStructure) -> Result<&[[f32; 3]], Error> {
    bytemuck::try_cast_slice(a.triangle_bytes()?).map_err(|_| Error::Misaligned {
        align: std::mem::align_of::<[f32; 3]>(),
    })
}

#[test]
fn total_size_reads_the_header_field() {
    let a = accel(&synthetic_block());
    assert_eq!(a.total_size(), Some(1816));
}

#[test]
fn aabb_reads_min_and_max() {
    let a = accel(&synthetic_block());
    let bits = a.aabb_bits().unwrap();
    assert_eq!(bits.min.map(f32::from_bits), [1.0, 2.0, 3.0]);
    assert_eq!(bits.max.map(f32::from_bits), [4.0, 5.0, 6.0]);
}

#[test]
fn triangles_is_bounded_to_exactly_the_header_count() {
    let a = accel(&synthetic_block());
    let verts = triangles(&a).unwrap();
    assert_eq!(verts.len(), 3);
    assert_eq!(verts, &[[0.0, 0.0, 0.0], [1.0, 0.0, 0.0], [0.0, 1.0, 0.0]]);
}

#[test]
fn total_size_and_aabb_are_none_on_a_short_payload() {
    let a = accel(&[0u8; 4]);
    assert_eq!(a.total_size(), None);
    assert!(a.aabb_bits().is_none());
}

#[test]
fn triangles_errors_truncated_on_a_short_payload() {
    let a = accel(&[0u8; 16]);
    assert!(matches!(a.triangle_bytes(), Err(Error::Truncated)));
}

#[test]
fn triangles_errors_truncated_when_payload_too_short_for_declared_count() {
    let mut b = vec![0u8; 0x418 + 36];
    b[0x2c..0x30].copy_from_slice(&2u32.to_le_bytes());
    let a = accel(&b);
    assert!(matches!(a.triangle_bytes(), Err(Error::Truncated)));
}

#[test]
fn triangles_misaligned_offset_errors_not_panics() {
    let mut src = vec![0u8; 1 + 0x418 + 36];
    src[1 + 0x2c..1 + 0x30].copy_from_slice(&1u32.to_le_bytes());
    let a = AccelStructure::from_parts(Payload::new(Arc::new(src.clone()), 1, src.len() - 1));
    assert_eq!(a.triangle_bytes().unwrap().len(), 36);
    assert!(matches!(triangles(&a), Err(Error::Misaligned { align: 4 })));
}
