use gputools_replay::hl::bytes::Payload;
use std::sync::Arc;

#[test]
fn payload_is_exact() {
    let src: Vec<u8> = (0..37).collect();
    let p = Payload::new(Arc::new(src.clone()), 4, 8);
    assert_eq!(p.bytes(), &src[4..12]);
    let whole = Payload::from_vec(src.clone());
    assert_eq!(whole.bytes(), src.as_slice());
}
