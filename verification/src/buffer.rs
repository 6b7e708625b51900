//! The escrow for boundary-owned buffers.
//!
//! When a result buffer crosses the boundary the crate parts with it: the
//! caller receives a token standing for the allocation's address, together
//! with the buffer's length and capacity, and owes exactly one matching
//! release call.  The escrow records every outstanding buffer so that
//! release is checked: a wrong triple, or a second release of the same
//! triple, is refused instead of being undefined.

use vstd::prelude::*;

use crate::errors::FfiError;

verus! {

/// One outstanding buffer: its bytes and the capacity reported for it.
pub struct EscrowEntry {
    /// The buffer handed across the boundary.
    pub data: Vec<u8>,
    /// The capacity reported with it.
    pub capacity: usize,
}

/// All outstanding boundary-owned buffers.  A token is one more than the
/// buffer's position; tokens are never reused, and token 0 is the null
/// token that never names a buffer.
pub struct BufferEscrow {
    /// One slot per token ever handed out; `None` once released.
    pub slots: Vec<Option<EscrowEntry>>,
}

/// Whether `token` names a buffer still outstanding in `e`.
pub open spec fn spec_is_live(e: BufferEscrow, token: u64) -> bool {
    1 <= token <= e.slots@.len() && e.slots@[token - 1] is Some
}

/// Whether a release call with this triple is the matching release owed for
/// an outstanding buffer of `e`.
pub open spec fn spec_release_ok(e: BufferEscrow, token: u64, size: usize, capacity: usize) -> bool {
    &&& spec_is_live(e, token)
    &&& e.slots@[token - 1].unwrap().data@.len() == size
    &&& e.slots@[token - 1].unwrap().capacity == capacity
}

/// How a successful release changes the escrow: that one slot is cleared,
/// nothing else moves.
pub open spec fn spec_released(before: BufferEscrow, after: BufferEscrow, token: u64) -> bool {
    after.slots@ == before.slots@.update(token - 1, None::<EscrowEntry>)
}

/// Relies on std's `Vec::capacity`: at least the vector's length, as its
/// documentation states; nothing more is assumed of it.
#[verifier::external_body]
pub fn vec_capacity(v: &Vec<u8>) -> (r: usize)
    ensures
        r >= v@.len(),
{
    v.capacity()
}

impl BufferEscrow {
    /// An escrow with no outstanding buffer.
    pub fn new() -> (r: BufferEscrow)
        ensures
            r.slots@.len() == 0,
    {
        BufferEscrow { slots: Vec::new() }
    }

    /// Hands a buffer across the boundary: records it and returns the token
    /// with the length and capacity the caller must give back.
    pub fn hand_out(&mut self, data: Vec<u8>, capacity: usize) -> (r: (u64, usize, usize))
        requires
            old(self).slots@.len() < usize::MAX,
            capacity >= data@.len(),
        ensures
            final(self).slots@.len() == old(self).slots@.len() + 1,
            forall|i: int|
                0 <= i < old(self).slots@.len() ==> final(self).slots@[i] == old(self).slots@[i],
            r.0 == old(self).slots@.len() + 1,
            spec_is_live(*final(self), r.0),
            !spec_is_live(*old(self), r.0),
            final(self).slots@[r.0 - 1].unwrap().data@ == data@,
            final(self).slots@[r.0 - 1].unwrap().capacity == capacity,
            r.1 == data@.len(),
            r.2 == capacity,
            spec_release_ok(*final(self), r.0, r.1, r.2),
    {
        let size = data.len();
        self.slots.push(Some(EscrowEntry { data, capacity }));
        let token = self.slots.len() as u64;
        (token, size, capacity)
    }

    /// The matching release call: reclaims the buffer the triple names.
    /// A token that names no outstanding buffer — in particular one already
    /// released — or a length or capacity other than the ones handed out,
    /// is refused.
    pub fn release(&mut self, token: u64, size: usize, capacity: usize) -> (r: Result<
        (),
        FfiError,
    >)
        ensures
            match r {
                Ok(()) => {
                    &&& spec_release_ok(*old(self), token, size, capacity)
                    &&& spec_released(*old(self), *final(self), token)
                },
                Err(e) => {
                    &&& !spec_release_ok(*old(self), token, size, capacity)
                    &&& *final(self) == *old(self)
                    &&& e matches FfiError::Unexpected(m) && m@ == "invalid buffer release"@
                },
            },
    {
        if token == 0 || token > self.slots.len() as u64 {
            return Err(FfiError::unexpected("invalid buffer release"));
        }
        let idx = (token - 1) as usize;
        let matches_entry = match &self.slots[idx] {
            Some(entry) => entry.data.len() == size && entry.capacity == capacity,
            None => false,
        };
        if !matches_entry {
            return Err(FfiError::unexpected("invalid buffer release"));
        }
        let ghost before = self.slots@;
        let slot = &mut self.slots[idx];
        *slot = None;
        proof {
            assert(self.slots@ =~= before.update(token - 1, None::<EscrowEntry>));
        }
        Ok(())
    }
}

/// A buffer is released once: after the release that a triple was owed, the
/// same triple is refused.
pub proof fn lemma_second_release_fails(
    before: BufferEscrow,
    after: BufferEscrow,
    token: u64,
    size: usize,
    capacity: usize,
)
    requires
        spec_release_ok(before, token, size, capacity),
        spec_released(before, after, token),
    ensures
        !spec_release_ok(after, token, size, capacity),
{
}

} // verus!
