//! Fetched buffers and heaps: the raw bytes always available; typed views
//! are zero-copy casts over them.

use crate::hl::bytes::Payload;
use vstd::prelude::*;

verus! {

/// A fetched buffer. Raw bytes always.
pub struct Buffer {
    stream_ref: u64,
    payload: Payload,
}

impl Buffer {
    /// The buffer's stream reference.
    pub closed spec fn spec_stream_ref(&self) -> u64 {
        self.stream_ref
    }

    /// The fetched bytes.
    pub closed spec fn spec_raw_bytes(&self) -> Seq<u8> {
        self.payload.spec_bytes()
    }

    /// Builds a buffer from a fetched record's stream reference and payload.
    pub fn from_parts(stream_ref: u64, payload: Payload) -> (b: Buffer)
        ensures
            b.spec_stream_ref() == stream_ref,
            b.spec_raw_bytes() == payload.spec_bytes(),
    {
        Buffer { stream_ref, payload }
    }

    /// The stream reference this buffer was fetched for.
    pub fn stream_ref(&self) -> (r: u64)
        ensures
            r == self.spec_stream_ref(),
    {
        self.stream_ref
    }

    /// The raw bytes. Always available.
    pub fn raw_bytes(&self) -> (r: &[u8])
        ensures
            r@ == self.spec_raw_bytes(),
    {
        self.payload.bytes()
    }
}

/// A fetched heap. Raw bytes always.
pub struct Heap {
    stream_ref: u64,
    payload: Payload,
}

impl Heap {
    /// The heap's stream reference.
    pub closed spec fn spec_stream_ref(&self) -> u64 {
        self.stream_ref
    }

    /// The fetched bytes.
    pub closed spec fn spec_raw_bytes(&self) -> Seq<u8> {
        self.payload.spec_bytes()
    }

    /// Builds a heap from a fetched record's stream reference and payload.
    pub fn from_parts(stream_ref: u64, payload: Payload) -> (h: Heap)
        ensures
            h.spec_stream_ref() == stream_ref,
            h.spec_raw_bytes() == payload.spec_bytes(),
    {
        Heap { stream_ref, payload }
    }

    /// The stream reference this heap was fetched for.
    pub fn stream_ref(&self) -> (r: u64)
        ensures
            r == self.spec_stream_ref(),
    {
        self.stream_ref
    }

    /// The raw bytes. Always available.
    pub fn raw_bytes(&self) -> (r: &[u8])
        ensures
            r@ == self.spec_raw_bytes(),
    {
        self.payload.bytes()
    }
}

} // verus!
