//! What holds of every read and every reply, stated over the functions that
//! the contracts of the buffer and of the replies use.

use vstd::prelude::*;
use crate::buffer::{delivered, min_len, trusted_after, trusted_len, view_len, TransferBuffer};
use crate::reply::{size_reply, status_reply, SizeReply, StatusReply};

verus! {

/// What is copied out comes from the view of this very call: if the storage
/// is what the writer left in the view, followed by anything, and no more is
/// trusted than the view holds, then the payload is a prefix of the view.
/// Bytes behind the view, left by earlier calls, never reach a caller.
pub proof fn lemma_payload_comes_from_view(buf: TransferBuffer, view: Seq<u8>, rest: Seq<u8>)
    requires
        buf.storage() == view + rest,
        buf.trusted() <= view.len(),
    ensures
        buf.payload() == view.subrange(0, buf.trusted() as int),
{
    assert(buf.payload() =~= view.subrange(0, buf.trusted() as int));
}

/// A value that fits both the buffer and the destination arrives whole: if
/// the system call wrote `value` to the front of the view and reported its
/// length, then the reply is that length and the front of the destination is
/// `value`, byte for byte.
pub proof fn lemma_value_arrives_whole(
    value: Seq<u8>,
    view: Seq<u8>,
    requested: nat,
    capacity: nat,
    dest: Seq<u8>,
)
    requires
        value.len() <= capacity,
        value.len() <= requested,
        value.len() <= isize::MAX,
        dest.len() == requested,
        view.len() == view_len(requested, capacity),
        view.subrange(0, value.len() as int) == value,
    ensures
        trusted_after(view.len(), Ok(value.len() as usize)) == value.len(),
        size_reply(Ok(value.len() as usize)) == (SizeReply {
            size: value.len() as isize,
            errno: None,
        }),
        size_reply(Ok(value.len() as usize)).size == value.len(),
        delivered(dest, view.subrange(0, value.len() as int)).subrange(0, value.len() as int)
            == value,
{
    let n = value.len() as int;
    assert(delivered(dest, view.subrange(0, n)).subrange(0, n) =~= view.subrange(0, n));
}

/// A value of size zero touches no destination: nothing is trusted, so the
/// payload is empty, the destination stays as it was, and the reply is 0.
pub proof fn lemma_empty_value_touches_nothing(buf: TransferBuffer, lent: nat, dest: Seq<u8>)
    requires
        buf.trusted() == trusted_after(lent, Ok(0usize)),
    ensures
        buf.payload() == Seq::<u8>::empty(),
        delivered(dest, buf.payload()) == dest,
        size_reply(Ok(0usize)) == (SizeReply { size: 0, errno: None }),
{
    assert(buf.payload() =~= Seq::<u8>::empty());
    assert(delivered(dest, buf.payload()) =~= dest);
}

/// Whatever the system call reports, no more bytes are trusted than the
/// caller's declared length, nor than the capacity, nor than the report.
pub proof fn lemma_truncation_bound(requested: nat, capacity: nat, outcome: Result<usize, i32>)
    ensures
        trusted_after(view_len(requested, capacity), outcome) <= requested,
        trusted_after(view_len(requested, capacity), outcome) <= capacity,
        outcome matches Ok(n) ==> trusted_after(view_len(requested, capacity), outcome) <= n,
        outcome is Err ==> trusted_after(view_len(requested, capacity), outcome) == 0,
{
}

/// The payload of a buffer in a valid state is never longer than the view
/// that was lent, nor than the capacity.
pub proof fn lemma_payload_within_view(buf: TransferBuffer)
    requires
        buf.wf(),
    ensures
        buf.payload().len() <= buf.lent(),
        buf.payload().len() <= buf.capacity(),
        buf.payload().len() <= buf.trusted(),
{
}

/// A copy writes only the front of the destination: the length stays, at
/// most `payload.len()` bytes change, and every byte behind them keeps its
/// value.
pub proof fn lemma_delivery_stays_in_bounds(dest: Seq<u8>, payload: Seq<u8>)
    ensures
        delivered(dest, payload).len() == dest.len(),
        forall|j: int|
            payload.len() <= j < dest.len() ==> #[trigger] delivered(dest, payload)[j] == dest[j],
        forall|j: int|
            0 <= j < min_len(dest.len(), payload.len()) ==> #[trigger] delivered(dest, payload)[j]
                == payload[j],
{
}

/// A failure is never silent: a status reply is 0 exactly on success, and a
/// failure gives -1 together with the error code of the system call.
pub proof fn lemma_failure_is_reported(outcome: Result<(), i32>)
    ensures
        status_reply(outcome).status == 0 <==> outcome is Ok,
        outcome is Ok ==> status_reply(outcome).errno is None,
        outcome matches Err(code) ==> status_reply(outcome) == (StatusReply {
            status: -1i32,
            errno: Some(code),
        }),
{
}

/// The same for a size reply: the error code is there exactly on failure,
/// and a failure gives -1.
pub proof fn lemma_size_failure_is_reported(outcome: Result<usize, i32>)
    ensures
        size_reply(outcome).errno is Some <==> outcome is Err,
        outcome matches Err(code) ==> size_reply(outcome) == (SizeReply {
            size: -1isize,
            errno: Some(code),
        }),
{
}

} // verus!
