//! The C return convention: what an entry point hands back for each outcome
//! of its system call.

use vstd::prelude::*;

verus! {

/// What a size-returning entry point (get, list) hands back.
#[derive(Clone, Copy, Debug, PartialEq, Eq, Structural)]
pub struct SizeReply {
    /// The return value: the reported size, or -1.
    pub size: isize,
    /// The error code to record, on failure only.
    pub errno: Option<i32>,
}

/// What a status-returning entry point (set, remove) hands back.
#[derive(Clone, Copy, Debug, PartialEq, Eq, Structural)]
pub struct StatusReply {
    /// The return value: 0 or -1.
    pub status: i32,
    /// The error code to record, on failure only.
    pub errno: Option<i32>,
}

/// The reply to a size-returning call: success carries the reported size as
/// a signed integer, failure carries -1 and the error code.
pub open spec fn size_reply(outcome: Result<usize, i32>) -> SizeReply {
    match outcome {
        Ok(n) => SizeReply { size: n as isize, errno: None },
        Err(code) => SizeReply { size: -1isize, errno: Some(code) },
    }
}

/// The reply to a status-returning call: 0 on success, -1 and the error
/// code on failure.
pub open spec fn status_reply(outcome: Result<(), i32>) -> StatusReply {
    match outcome {
        Ok(_) => StatusReply { status: 0i32, errno: None },
        Err(code) => StatusReply { status: -1i32, errno: Some(code) },
    }
}

impl SizeReply {
    /// The reply for the outcome of a size-returning system call.
    pub fn from_outcome(outcome: Result<usize, i32>) -> (r: SizeReply)
        ensures
            r == size_reply(outcome),
            outcome matches Ok(n) ==> (n <= isize::MAX ==> r.size == n),
    {
        match outcome {
            Ok(n) => SizeReply { size: #[verifier::truncate] (n as isize), errno: None },
            Err(code) => SizeReply { size: -1, errno: Some(code) },
        }
    }
}

impl StatusReply {
    /// The reply for the outcome of a status-returning system call.
    pub fn from_outcome(outcome: Result<(), i32>) -> (r: StatusReply)
        ensures
            r == status_reply(outcome),
    {
        match outcome {
            Ok(_) => StatusReply { status: 0, errno: None },
            Err(code) => StatusReply { status: -1, errno: Some(code) },
        }
    }
}

} // verus!
