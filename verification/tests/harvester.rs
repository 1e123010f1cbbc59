use gputools_replay::replay::error::HarvesterError;
use gputools_replay::replay::harvester::CaptureBlock;

fn synthetic() -> Vec<u8> {
    let mut b = vec![0u8; 0x78 + 4];
    b[..8].copy_from_slice(&[0x65, 0x72, 0x75, 0x74, 0x70, 0x61, 0x63, 0x00]);
    b[0x08..0x0a].copy_from_slice(&2u16.to_le_bytes());
    b[0x0a..0x0c].copy_from_slice(&1u16.to_le_bytes());
    b[0x0c..0x10].copy_from_slice(&0x78u32.to_le_bytes());
    b[0x10..0x18].copy_from_slice(&1u64.to_le_bytes());
    let desc = [80u64, 64, 64, 1, 256, 16384];
    for (i, v) in desc.iter().enumerate() {
        let o = 0x18 + i * 8;
        b[o..o + 8].copy_from_slice(&v.to_le_bytes());
    }
    b[0x78..].copy_from_slice(b"DATA");
    b
}

#[test]
fn parses_a_capture_block() {
    let bytes = synthetic();
    let block = CaptureBlock::parse(&bytes).unwrap();
    assert_eq!(block.plane_count(), 1);
    let p = block.plane(0).unwrap();
    assert_eq!(p.pixel_format, 80);
    assert_eq!(p.width, 64);
    assert_eq!(p.height, 64);
    assert_eq!(p.bytes_per_row, 256);
    assert_eq!(p.bytes_per_image, 16384);
    assert_eq!(block.data(), b"DATA");
    assert!(block.plane(1).is_none());
}

#[test]
fn rejects_bad_magic_and_truncation() {
    assert!(matches!(
        CaptureBlock::parse(&[0u8; 0x20]),
        Err(HarvesterError::BadMagic)
    ));
    let mut short = synthetic();
    short.truncate(0x10);
    assert!(matches!(
        CaptureBlock::parse(&short),
        Err(HarvesterError::BadMagic | HarvesterError::Truncated)
    ));
}

#[test]
fn rejects_overflowing_plane_count_without_panicking() {
    let mut b = vec![0u8; 0x18];
    b[..8].copy_from_slice(&[0x65, 0x72, 0x75, 0x74, 0x70, 0x61, 0x63, 0x00]);
    b[0x0a..0x0c].copy_from_slice(&1u16.to_le_bytes());
    b[0x0c..0x10].copy_from_slice(&0x18u32.to_le_bytes());
    b[0x10..0x18].copy_from_slice(&u64::MAX.to_le_bytes());
    assert!(matches!(
        CaptureBlock::parse(&b),
        Err(HarvesterError::Truncated)
    ));
}

#[test]
fn rejects_a_non_texture_block_by_its_type() {
    let mut b = synthetic();
    b[0x0a..0x0c].copy_from_slice(&3u16.to_le_bytes());
    assert!(matches!(
        CaptureBlock::parse(&b),
        Err(HarvesterError::WrongType(3))
    ));
}

#[test]
fn rejects_metadata_larger_than_the_block() {
    let mut b = synthetic();
    b[0x0c..0x10].copy_from_slice(&0x1000u32.to_le_bytes());
    assert!(matches!(
        CaptureBlock::parse(&b),
        Err(HarvesterError::Truncated)
    ));
}
