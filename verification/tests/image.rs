use gputools_replay::hl::bytes::Payload;
use gputools_replay::hl::error::Error;
use gputools_replay::hl::image::{Packed, Texture, Wireframe};
use std::sync::Arc;

fn tex(width: u32, height: u16, bpr: u32, fmt: u32, bytes: &[u8]) -> Texture {
    let buf = Arc::new(bytes.to_vec());
    Texture::for_test(0, width, height, bpr, fmt, Payload::new(buf, 0, bytes.len()))
}

/// A typed pixel view: the bytes the library hands out, cast.
fn pixels<P: bytemuck::Pod>(bytes: Result<&[u8], Error>) -> Result<&[P], Error> {
    bytemuck::try_cast_slice(bytes?).map_err(|_| Error::Misaligned {
        align: std::mem::align_of::<P>(),
    })
}

/// Typed row views: each row the library hands out, cast.
fn rows<P: bytemuck::Pod>(rows: Result<Vec<&[u8]>, Error>) -> Result<Vec<Vec<P>>, Error> {
    let mut out = Vec::new();
    for r in rows? {
        let typed: &[P] = bytemuck::try_cast_slice(r).map_err(|_| Error::Misaligned {
            align: std::mem::align_of::<P>(),
        })?;
        out.push(typed.to_vec());
    }
    Ok(out)
}

#[test]
fn rgba32float_reads_as_f32() {
    let px = [1.0f32, 2.0, 3.0, 4.0];
    let bytes: Vec<u8> = bytemuck::cast_slice(&px).to_vec();
    let t = tex(1, 1, 16, 125, &bytes);
    assert_eq!(
        pixels::<[f32; 4]>(t.pixel_bytes(16)).unwrap(),
        &[[1.0, 2.0, 3.0, 4.0]]
    );
    assert!(matches!(
        t.pixel_bytes(4),
        Err(Error::FormatMismatch { requested: 4, actual: 16 })
    ));
    assert_eq!(t.raw_bytes(), bytes.as_slice());
}

#[test]
fn padded_rows_use_rows_not_pixels() {
    let mut bytes = vec![0u8; 12 * 2];
    for y in 0..2 {
        for x in 0..2 {
            let i = y * 12 + x * 4;
            bytes[i..i + 4].copy_from_slice(&[x as u8, y as u8, 9, 9]);
        }
    }
    let t = tex(2, 2, 12, 80, &bytes);
    assert!(matches!(
        t.pixel_bytes(4),
        Err(Error::Padded { bytes_per_row: 12, row_len: 8 })
    ));
    let rows: Vec<Vec<[u8; 4]>> = rows(t.row_bytes(4)).unwrap();
    assert_eq!(rows[1][0], [0, 1, 9, 9]);
}

#[test]
fn depth32float_reads_as_f32() {
    let bytes: Vec<u8> = bytemuck::cast_slice(&[0.5f32; 4]).to_vec();
    let t = tex(2, 2, 8, 252, &bytes);
    assert_eq!(pixels::<f32>(t.pixel_bytes(4)).unwrap(), &[0.5, 0.5, 0.5, 0.5]);
}

#[test]
fn x32_stencil8_reads_as_u8_not_padded_stride() {
    let bytes: Vec<u8> = vec![1, 2, 3, 4];
    let t = tex(2, 2, 2, 261, &bytes);
    assert_eq!(t.pixel_bytes(1).unwrap(), &[1, 2, 3, 4]);
}

#[test]
fn wireframe_r8_reads_as_u8() {
    let bytes: Vec<u8> = vec![10, 20, 30, 40];
    let w = Wireframe::for_test(4, 1, 4, 10, Payload::new(Arc::new(bytes.clone()), 0, bytes.len()));
    assert_eq!(w.pixel_bytes(1).unwrap(), &[10, 20, 30, 40]);
    assert_eq!(w.dispatch_uid(), 0);
}

#[test]
fn depth_bytes_per_image_and_provenance_are_carried_from_the_record() {
    let t = Texture::for_test_provenance(4, 1024, 1, 2, 3, Payload::new(Arc::new(vec![0; 4]), 0, 4));
    assert_eq!(t.depth(), 4);
    assert_eq!(t.bytes_per_image(), 1024);
    assert_eq!(t.plane(), 1);
    assert_eq!(t.slice(), 2);
    assert_eq!(t.level(), 3);
}

#[test]
fn truncated_payload_errors_not_panics_slop_case() {
    let t = tex(1, 1, 4, 70, &[1, 2, 3]);
    assert!(matches!(t.pixel_bytes(4), Err(Error::Truncated)));
}

#[test]
fn truncated_payload_errors_not_panics_short_read_case() {
    let t = tex(4, 4, 16, 70, &[0; 8]);
    assert!(matches!(t.pixel_bytes(4), Err(Error::Truncated)));
}

#[test]
fn truncated_payload_errors_from_rows() {
    let t = tex(2, 4, 2, 10, &[0; 4]);
    assert!(matches!(t.row_bytes(1), Err(Error::Truncated)));
}

#[test]
fn overlong_payload_pixels_is_not_inflated() {
    let t = tex(1, 1, 4, 70, &[1, 2, 3, 4, 9, 9, 9, 9]);
    let px = pixels::<[u8; 4]>(t.pixel_bytes(4)).unwrap();
    assert_eq!(px.len(), 1);
    assert_eq!(px, &[[1, 2, 3, 4]]);
}

#[test]
fn bytes_per_row_shorter_than_row_errors_not_panics_in_rows() {
    let t = tex(2, 2, 4, 70, &[0; 8]);
    assert!(matches!(t.row_bytes(4), Err(Error::Truncated)));
}

#[test]
fn bytes_per_row_shorter_than_row_errors_not_panics_in_pixels() {
    let t = tex(2, 2, 4, 70, &[0; 8]);
    assert!(t.pixel_bytes(4).is_err());
}

#[test]
fn packed_bytes_borrows_when_already_tight() {
    let bytes: Vec<u8> = (0..16).collect();
    let t = tex(2, 2, 8, 70, &bytes);
    let packed = t.packed_bytes().unwrap();
    assert!(matches!(packed, Packed::Borrowed(_)));
    assert_eq!(packed.as_slice(), bytes.as_slice());
}

#[test]
fn packed_bytes_copies_and_drops_padding_when_padded() {
    let mut bytes = vec![0u8; 12 * 2];
    for y in 0..2 {
        for x in 0..2 {
            let i = y * 12 + x * 4;
            bytes[i..i + 4].copy_from_slice(&[x as u8, y as u8, 9, 9]);
        }
    }
    let t = tex(2, 2, 12, 80, &bytes);
    let packed = t.packed_bytes().unwrap();
    assert!(matches!(packed, Packed::Owned(_)));
    let packed = packed.as_slice();
    assert_eq!(packed.len(), 2 * 2 * 4);
    assert_eq!(&packed[0..4], &[0, 0, 9, 9]);
    assert_eq!(&packed[4..8], &[1, 0, 9, 9]);
    assert_eq!(&packed[8..12], &[0, 1, 9, 9]);
    assert_eq!(&packed[12..16], &[1, 1, 9, 9]);
}

#[test]
fn packed_bytes_errors_wrong_category_for_compressed() {
    let t = tex(4, 4, 16, 204, &[0u8; 16]);
    assert!(matches!(t.packed_bytes(), Err(Error::WrongCategory(_))));
}

#[test]
fn packed_bytes_stencil_aspect_sizes_at_1_byte_not_padded_stride() {
    let bytes: Vec<u8> = vec![1, 2, 3, 4];
    let t = tex(2, 2, 2, 261, &bytes);
    let packed = t.packed_bytes().unwrap();
    assert!(matches!(packed, Packed::Borrowed(_)));
    assert_eq!(packed.as_slice().len(), 2 * 2);
    assert_eq!(packed.as_slice(), bytes.as_slice());
}

#[test]
fn blocks_expected_len_is_ceil_based_not_padded() {
    let t = tex(6, 5, 48, 204, &vec![0u8; 48 * 2]);
    let blocks = t.blocks().unwrap();
    assert_eq!(blocks.blocks_per_row, 3);
    assert_eq!(blocks.expected_len(), 64);
    assert!(blocks.expected_len() < blocks.blocks_per_row * 2 * blocks.block_bytes as usize);
}

#[test]
fn packed_blocks_borrows_when_already_tight() {
    let bytes: Vec<u8> = (0..64).collect();
    let t = tex(8, 8, 32, 204, &bytes);
    let blocks = t.blocks().unwrap();
    let packed = blocks.packed_blocks().unwrap();
    assert!(matches!(packed, Packed::Borrowed(_)));
    assert_eq!(packed.as_slice(), &bytes[..blocks.expected_len()]);
}

#[test]
fn packed_blocks_copies_and_drops_padding_when_padded() {
    let bpr = 48;
    let mut bytes = vec![0u8; bpr * 2];
    for row in 0..2usize {
        for col in 0..3usize {
            bytes[row * bpr + col * 16] = (row * 3 + col) as u8;
        }
    }
    let t = tex(6, 5, 48, 204, &bytes);
    let blocks = t.blocks().unwrap();
    let packed = blocks.packed_blocks().unwrap();
    assert!(matches!(packed, Packed::Owned(_)));
    let packed = packed.as_slice();
    assert_eq!(packed.len(), blocks.expected_len());
    assert_eq!(packed[0], 0);
    assert_eq!(packed[16], 1);
    assert_eq!(packed[32], 3);
    assert_eq!(packed[48], 4);
}

#[test]
fn packed_blocks_errors_truncated_on_a_narrow_fetched_stride() {
    let t = tex(8, 8, 16, 204, &vec![0u8; 16 * 2]);
    let blocks = t.blocks().unwrap();
    assert_eq!(blocks.blocks_per_row, 1);
    assert!(matches!(blocks.packed_blocks(), Err(Error::Truncated)));
}

#[test]
fn misaligned_offset_errors_not_panics_pixels() {
    let src: Vec<u8> = vec![0u8; 8];
    let t = Texture::for_test(0, 1, 1, 4, 252, Payload::new(Arc::new(src), 1, 4));
    assert!(matches!(
        pixels::<f32>(t.pixel_bytes(4)),
        Err(Error::Misaligned { align: 4 })
    ));
}

#[test]
fn blocks_of_an_uncompressed_format_are_refused() {
    let t = tex(2, 2, 8, 80, &[0; 16]);
    assert!(matches!(t.blocks(), Err(Error::WrongCategory("not a compressed format"))));
    let combined = tex(2, 2, 8, 260, &[0; 16]);
    assert!(matches!(combined.pixel_bytes(4), Err(Error::WrongCategory(_))));
    let unknown = tex(2, 2, 8, 0xffff_ff00, &[0; 16]);
    assert!(matches!(unknown.packed_bytes(), Err(Error::UnknownFormat(0xffff_ff00))));
}

#[test]
fn packed_color_format_refuses_typed_access() {
    // RGB10A2Unorm: four bytes a pixel, channels not on byte boundaries.
    let t = tex(1, 1, 4, 90, &[0; 4]);
    assert!(matches!(t.pixel_bytes(4), Err(Error::WrongCategory(_))));
    assert!(matches!(t.row_bytes(4), Err(Error::WrongCategory(_))));
    assert!(matches!(t.pixel_bytes(2), Err(Error::WrongCategory(_))));
    assert_eq!(t.packed_bytes().unwrap().as_slice(), &[0, 0, 0, 0]);
    assert_eq!(t.raw_bytes(), &[0, 0, 0, 0]);
}

#[test]
fn block_getters_read_the_fields() {
    let bytes = vec![7u8; 32];
    let t = tex(8, 4, 32, 204, &bytes);
    let b = t.blocks().unwrap();
    assert_eq!(b.block(), b.block);
    assert_eq!(b.block(), (4, 4));
    assert_eq!(b.block_bytes(), 16);
    assert_eq!(b.blocks_per_row(), 2);
    assert_eq!(b.data(), b.bytes);
    assert_eq!(b.data().len(), 32);
}
