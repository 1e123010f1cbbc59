//! Verified core of a `.gputrace` replay client: reply and capture-block
//! decoding, pixel-format metadata, texture/descriptor joins and the
//! decisions around a replay session.

pub mod hl;
pub mod replay;
pub mod sys;
