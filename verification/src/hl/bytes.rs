//! A shared, immutable payload buffer. Every domain handle views a
//! [`Payload`], a `buf[off..off + len]` sub-slice of one reply's bytes,
//! rather than holding its own copy.

use std::sync::Arc;
use vstd::prelude::*;
use vstd::slice::slice_subrange;

verus! {

/// A shared, immutable slice `buf[off..off + len]` of one reply's payload.
pub struct Payload {
    buf: Arc<Vec<u8>>,
    off: usize,
    len: usize,
}

impl Payload {
    #[verifier::type_invariant]
    closed spec fn in_bounds(&self) -> bool {
        self.off + self.len <= self.buf@.len()
    }

    /// The bytes this payload views.
    pub closed spec fn spec_bytes(&self) -> Seq<u8> {
        self.buf@.subrange(self.off as int, self.off + self.len)
    }

    /// A view onto `buf[off..off + len]`, which must lie within `buf`.
    pub fn new(buf: Arc<Vec<u8>>, off: usize, len: usize) -> (p: Payload)
        requires
            off + len <= buf@.len(),
        ensures
            p.spec_bytes() == buf@.subrange(off as int, off + len),
    {
        Payload { buf, off, len }
    }

    /// A payload holding exactly `bytes`.
    pub fn from_vec(bytes: Vec<u8>) -> (p: Payload)
        ensures
            p.spec_bytes() == bytes@,
    {
        let len = bytes.len();
        let ghost b = bytes@;
        let p = Payload { buf: Arc::new(bytes), off: 0, len };
        assert(p.spec_bytes() =~= b);
        p
    }

    /// The `off..off + len` sub-slice of the underlying buffer.
    pub fn bytes(&self) -> (r: &[u8])
        ensures
            r@ == self.spec_bytes(),
    {
        proof {
            use_type_invariant(self);
        }
        let all: &Vec<u8> = &self.buf;
        let slice = all.as_slice();
        let n = slice.len();
        assert(self.off + self.len <= n);
        slice_subrange(slice, self.off, self.off + self.len)
    }
}

} // verus!
