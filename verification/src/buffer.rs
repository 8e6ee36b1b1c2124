//! The transfer buffer: a fixed-capacity scratch area that stands between
//! the system call and the caller's destination.
//!
//! A read goes through two phases. First a bounded view of the buffer is
//! lent to the system call, which may write any part of it. Then the system
//! call reports how many bytes the value has; only the reported prefix of
//! the view is trusted afterwards, and only that prefix is ever copied out.

use vstd::prelude::*;
use crate::reply::{size_reply, SizeReply};

verus! {

/// The smaller of two lengths.
pub open spec fn min_len(a: nat, b: nat) -> nat {
    if a <= b {
        a
    } else {
        b
    }
}

/// The length of the view lent for a request of `requested` bytes by a
/// buffer of `capacity` bytes.
pub open spec fn view_len(requested: nat, capacity: nat) -> nat {
    min_len(requested, capacity)
}

/// The number of bytes that may be copied to the caller after a system call
/// that was lent `lent` bytes and reported `reported`.
pub open spec fn trusted_len(lent: nat, reported: nat) -> nat {
    min_len(lent, reported)
}

/// The trusted length after a system call's outcome: nothing on failure.
pub open spec fn trusted_after(lent: nat, outcome: Result<usize, i32>) -> nat {
    match outcome {
        Ok(n) => trusted_len(lent, n as nat),
        Err(_) => 0,
    }
}

/// A destination after `payload` was copied to its front: as many bytes as
/// fit are replaced, the rest stays as it was.
pub open spec fn delivered(before: Seq<u8>, payload: Seq<u8>) -> Seq<u8> {
    let k = min_len(before.len(), payload.len()) as int;
    payload.subrange(0, k) + before.subrange(k, before.len() as int)
}

/// The scratch buffer shared by all read-style operations.
pub struct TransferBuffer {
    data: Vec<u8>,
    lent: usize,
    filled: usize,
}

impl TransferBuffer {
    /// Everything the storage holds, trusted or not.
    pub closed spec fn storage(&self) -> Seq<u8> {
        self.data@
    }

    /// The fixed capacity: the length of the storage.
    pub open spec fn capacity(&self) -> nat {
        self.storage().len()
    }

    /// The length of the view lent last.
    pub closed spec fn lent(&self) -> nat {
        self.lent as nat
    }

    /// The number of bytes trusted since the last outcome.
    pub closed spec fn trusted(&self) -> nat {
        self.filled as nat
    }

    /// The invariant: no more is trusted than was lent.
    pub open spec fn wf(&self) -> bool {
        self.trusted() <= self.lent()
    }

    /// The trusted prefix of the storage: what may be copied to a caller.
    pub open spec fn payload(&self) -> Seq<u8> {
        self.storage().subrange(0, min_len(self.trusted(), self.capacity()) as int)
    }

    /// A buffer of `capacity` zero bytes, with nothing lent or trusted.
    pub fn new(capacity: usize) -> (r: TransferBuffer)
        ensures
            r.wf(),
            r.capacity() == capacity,
            r.lent() == 0,
            r.trusted() == 0,
            forall|i: int| 0 <= i < capacity ==> r.storage()[i] == 0u8,
    {
        let mut data: Vec<u8> = Vec::new();
        let mut i: usize = 0;
        while i < capacity
            invariant
                i <= capacity,
                data@.len() == i,
                forall|j: int| 0 <= j < i ==> data@[j] == 0u8,
            decreases capacity - i,
        {
            data.push(0u8);
            i = i + 1;
        }
        TransferBuffer { data, lent: 0, filled: 0 }
    }

    /// The capacity, as a value.
    pub fn len(&self) -> (r: usize)
        ensures
            r == self.capacity(),
    {
        self.data.len()
    }

    /// The length of the view that a request of `requested_len` bytes gets:
    /// the request, clamped to the capacity.
    pub fn clamp(&self, requested_len: usize) -> (r: usize)
        ensures
            r == view_len(requested_len as nat, self.capacity()),
    {
        let cap: usize = self.data.len();
        if requested_len <= cap {
            requested_len
        } else {
            cap
        }
    }

    /// Lends the front of the buffer to a writer. The view has the clamped
    /// length and nothing is trusted until the outcome is known. Whatever
    /// the writer leaves in the view becomes the front of the storage; the
    /// rest of the storage is untouched.
    pub fn acquire_view(&mut self, requested_len: usize) -> (view: &mut [u8])
        ensures
            view@.len() == view_len(requested_len as nat, old(self).capacity()),
            view@ == old(self).storage().subrange(0, view@.len() as int),
            final(self).wf(),
            final(self).lent() == view@.len(),
            final(self).trusted() == 0,
            final(self).storage() == final(view)@ + old(self).storage().subrange(
                view@.len() as int,
                old(self).capacity() as int,
            ),
            final(view)@.len() == view@.len() ==> final(self).capacity() == old(self).capacity(),
    {
        let n: usize = self.clamp(requested_len);
        self.lent = n;
        self.filled = 0;
        let (head, _tail) = self.data.as_mut_slice().split_at_mut(n);
        head
    }

    /// Records the outcome of the system call that wrote into the view, and
    /// gives the reply for it. On success the trusted prefix is the reported
    /// size, clamped to the view that was lent; on failure nothing is trusted.
    /// The storage itself is not touched.
    pub fn complete(&mut self, outcome: Result<usize, i32>) -> (r: SizeReply)
        ensures
            r == size_reply(outcome),
            final(self).wf(),
            final(self).storage() == old(self).storage(),
            final(self).lent() == old(self).lent(),
            final(self).trusted() == trusted_after(old(self).lent(), outcome),
    {
        self.filled = match outcome {
            Ok(n) => if n <= self.lent {
                n
            } else {
                self.lent
            },
            Err(_) => 0,
        };
        SizeReply::from_outcome(outcome)
    }

    /// The trusted prefix, for copying to the caller. It is empty exactly
    /// when there is nothing to copy, and then no destination is needed.
    pub fn payload_bytes(&self) -> (p: &[u8])
        ensures
            p@ == self.payload(),
    {
        let cap: usize = self.data.len();
        let k: usize = if self.filled <= cap {
            self.filled
        } else {
            cap
        };
        vstd::slice::slice_subrange(self.data.as_slice(), 0, k)
    }

    /// Copies the trusted prefix to the front of `dest`, as far as it fits,
    /// and returns how many bytes were written. Bytes of `dest` behind the
    /// copy keep their value, and `dest` keeps its length.
    pub fn deliver(&self, dest: &mut Vec<u8>) -> (written: usize)
        ensures
            written == min_len(old(dest)@.len(), self.payload().len()),
            final(dest)@ == delivered(old(dest)@, self.payload()),
    {
        let payload = self.payload_bytes();
        let k: usize = if payload.len() <= dest.len() {
            payload.len()
        } else {
            dest.len()
        };
        let mut i: usize = 0;
        while i < k
            invariant
                i <= k,
                k <= payload@.len(),
                k <= dest@.len(),
                dest@.len() == old(dest)@.len(),
                forall|j: int| 0 <= j < i ==> dest@[j] == payload@[j],
                forall|j: int| i <= j < dest@.len() ==> dest@[j] == old(dest)@[j],
            decreases k - i,
        {
            dest[i] = payload[i];
            i = i + 1;
        }
        assert(dest@ =~= delivered(old(dest)@, self.payload()));
        k
    }
}

} // verus!
