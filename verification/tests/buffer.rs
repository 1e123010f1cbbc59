use gputools_replay::hl::buffer::{Buffer, Heap};
use gputools_replay::hl::bytes::Payload;
use gputools_replay::hl::error::Error;
use std::sync::Arc;

fn buf(bytes: &[u8]) -> Buffer {
    Buffer::from_parts(7, Payload::new(Arc::new(bytes.to_vec()), 0, bytes.len()))
}

fn heap(bytes: &[u8]) -> Heap {
    Heap::from_parts(3, Payload::new(Arc::new(bytes.to_vec()), 0, bytes.len()))
}

/// The typed view over a buffer's bytes: a cast the bytes do not fit is a
/// format mismatch naming the element and byte sizes.
fn as_slice<T: bytemuck::Pod>(bytes: &[u8]) -> Result<&[T], Error> {
    bytemuck::try_cast_slice(bytes).map_err(|_| Error::FormatMismatch {
        requested: std::mem::size_of::<T>(),
        actual: bytes.len(),
    })
}

#[test]
fn as_slice_reads_a_u32_ramp() {
    let ramp: Vec<u32> = (0..8).collect();
    let bytes: Vec<u8> = bytemuck::cast_slice(&ramp).to_vec();
    let b = buf(&bytes);
    assert_eq!(as_slice::<u32>(b.raw_bytes()).unwrap(), ramp.as_slice());
    assert_eq!(b.stream_ref(), 7);
    assert_eq!(b.raw_bytes(), bytes.as_slice());
}

#[test]
fn as_slice_errors_on_length_not_a_multiple() {
    let b = buf(&[0; 6]);
    assert!(matches!(
        as_slice::<u32>(b.raw_bytes()),
        Err(Error::FormatMismatch { requested: 4, actual: 6 })
    ));
}

#[test]
fn heap_as_slice_reads_a_u32_ramp() {
    let ramp: Vec<u32> = (0x2000..0x2004).collect();
    let bytes: Vec<u8> = bytemuck::cast_slice(&ramp).to_vec();
    let h = heap(&bytes);
    assert_eq!(as_slice::<u32>(h.raw_bytes()).unwrap(), ramp.as_slice());
    assert_eq!(h.stream_ref(), 3);
    assert_eq!(h.raw_bytes(), bytes.as_slice());
}

#[test]
fn heap_as_slice_errors_on_length_not_a_multiple() {
    let h = heap(&[0; 6]);
    assert!(matches!(
        as_slice::<u32>(h.raw_bytes()),
        Err(Error::FormatMismatch { requested: 4, actual: 6 })
    ));
}
