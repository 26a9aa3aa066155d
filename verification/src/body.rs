//! Bounded accumulation of a request body.
//!
//! A request body arrives as a stream of chunks.  The buffer below
//! accumulates them and refuses growth past the size bound as soon as a
//! chunk would cross it, so an oversized body is rejected before it is
//! ever held in memory whole.

use vstd::prelude::*;
use crate::error::ApiError;

verus! {

/// The size bound on a request body, in bytes.
pub const MAX_BODY_BYTES: usize = 262144;

/// A request body under accumulation.  Its view is the bytes received
/// so far; they never exceed `MAX_BODY_BYTES`.
pub struct BodyBuffer {
    bytes: Vec<u8>,
}

impl View for BodyBuffer {
    type V = Seq<u8>;

    closed spec fn view(&self) -> Seq<u8> {
        self.bytes@
    }
}

impl BodyBuffer {
    #[verifier::type_invariant]
    spec fn bounded(self) -> bool {
        self.bytes@.len() <= MAX_BODY_BYTES
    }

    /// An empty buffer.
    pub fn new() -> (b: BodyBuffer)
        ensures
            b@ == Seq::<u8>::empty(),
    {
        BodyBuffer { bytes: Vec::new() }
    }

    /// How many bytes have been received so far.
    pub fn len(&self) -> (n: usize)
        ensures
            n == self@.len(),
    {
        self.bytes.len()
    }

    /// Append one chunk.  If the bytes received so far plus this chunk
    /// would exceed the bound, the chunk is refused and the buffer is
    /// left as it was; otherwise the chunk is appended whole.
    pub fn push_chunk(&mut self, chunk: &[u8]) -> (r: Result<(), ApiError>)
        ensures
            old(self)@.len() + chunk@.len() <= MAX_BODY_BYTES ==> {
                &&& r == Ok::<(), ApiError>(())
                &&& final(self)@ == old(self)@ + chunk@
            },
            old(self)@.len() + chunk@.len() > MAX_BODY_BYTES ==> {
                &&& r == Err::<(), ApiError>(ApiError::PayloadTooLarge)
                &&& final(self)@ == old(self)@
            },
    {
        proof {
            use_type_invariant(&*self);
        }
        if chunk.len() > MAX_BODY_BYTES - self.bytes.len() {
            return Err(ApiError::PayloadTooLarge);
        }
        let mut taken: Vec<u8> = Vec::new();
        std::mem::swap(&mut taken, &mut self.bytes);
        let mut i: usize = 0;
        while i < chunk.len()
            invariant
                i <= chunk@.len(),
                old(self)@.len() + chunk@.len() <= MAX_BODY_BYTES,
                taken@ == old(self)@ + chunk@.subrange(0, i as int),
            decreases chunk@.len() - i,
        {
            taken.push(chunk[i]);
            proof {
                assert(taken@ =~= old(self)@ + chunk@.subrange(0, i + 1));
            }
            i = i + 1;
        }
        proof {
            assert(taken@ =~= old(self)@ + chunk@);
        }
        self.bytes = taken;
        Ok(())
    }

    /// The complete body, surrendered for parsing.
    pub fn into_bytes(self) -> (v: Vec<u8>)
        ensures
            v@ == self@,
    {
        self.bytes
    }
}

} // verus!
