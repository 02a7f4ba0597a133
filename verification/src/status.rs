//! The status query: fill the caller's buffer with the status message, or
//! say how large a buffer is needed.

use crate::message::{
    lemma_status_message_bytes, lemma_status_text_ascii, status_message, status_text,
    STATUS_MESSAGE_LEN,
};
use vstd::prelude::*;

verus! {

/// What a query with declared capacity `buffer_len` returns: zero when the
/// message fits, else the number of bytes that it needs.
pub open spec fn status_code(buffer_len: int) -> int {
    if buffer_len < STATUS_MESSAGE_LEN {
        STATUS_MESSAGE_LEN as int
    } else {
        0
    }
}

/// What a query with declared capacity `buffer_len` leaves in `buffer`: the
/// buffer as it was when the message does not fit, else the message followed
/// by what the buffer held behind it.
pub open spec fn buffer_after(buffer: Seq<u8>, buffer_len: int) -> Seq<u8> {
    if buffer_len < STATUS_MESSAGE_LEN {
        buffer
    } else {
        status_message() + buffer.skip(STATUS_MESSAGE_LEN as int)
    }
}

/// A declared capacity is honest about the message when a buffer said to
/// have room for it really has.
pub open spec fn capacity_holds(buffer: Seq<u8>, buffer_len: int) -> bool {
    buffer_len >= STATUS_MESSAGE_LEN ==> buffer.len() >= STATUS_MESSAGE_LEN
}

/// Copies the message to the front of `buffer` and leaves the rest alone.
pub fn write_status_message(buffer: &mut [u8])
    requires
        old(buffer)@.len() >= STATUS_MESSAGE_LEN,
    ensures
        final(buffer)@ == status_message() + old(buffer)@.skip(STATUS_MESSAGE_LEN as int),
{
    let text = status_text().as_bytes();
    let n: usize = text.len();
    proof {
        lemma_status_text_ascii();
        lemma_status_message_bytes();
    }
    let mut i: usize = 0;
    while i < n
        invariant
            i <= n,
            n + 1 == STATUS_MESSAGE_LEN,
            status_message().len() == STATUS_MESSAGE_LEN,
            text@ == status_message().take(n as int),
            buffer@.len() == old(buffer)@.len(),
            buffer@.len() > n,
            forall|k: int| 0 <= k < i ==> buffer@[k] == status_message()[k],
            forall|k: int| i <= k < buffer@.len() ==> buffer@[k] == old(buffer)@[k],
        decreases n - i,
    {
        buffer[i] = text[i];
        i += 1;
    }
    buffer[n] = 0;
    assert(buffer@ =~= status_message() + old(buffer)@.skip(STATUS_MESSAGE_LEN as int));
}

/// Reports the bridge's status into `buffer`, whose capacity the caller
/// declares as `buffer_len`.
///
/// When the message with its terminator fits in `buffer_len` bytes, it is
/// written to the front of the buffer and the result is zero. When it does
/// not, which includes every negative `buffer_len`, nothing is written and
/// the result is the number of bytes that the message needs.
///
/// The buffer stays the caller's, and no byte at or behind `buffer_len` is
/// ever written. The caller answers for the declared capacity: a buffer
/// declared large enough for the message has to be that large.
pub fn get_bridge_status(buffer: &mut [u8], buffer_len: i32) -> (code: i32)
    requires
        capacity_holds(old(buffer)@, buffer_len as int),
    ensures
        code == status_code(buffer_len as int),
        final(buffer)@ == buffer_after(old(buffer)@, buffer_len as int),
        buffer_len >= STATUS_MESSAGE_LEN ==> {
            &&& code == 0
            &&& final(buffer)@.take(STATUS_MESSAGE_LEN as int) == status_message()
        },
        buffer_len < STATUS_MESSAGE_LEN ==> {
            &&& code == STATUS_MESSAGE_LEN
            &&& final(buffer)@ == old(buffer)@
        },
        final(buffer)@.len() == old(buffer)@.len(),
        forall|k: int|
            0 <= k && buffer_len <= k < old(buffer)@.len() ==> #[trigger] final(buffer)@[k]
                == old(buffer)@[k],
{
    proof {
        lemma_status_message_bytes();
    }
    let required: i32 = STATUS_MESSAGE_LEN as i32;
    if required > buffer_len {
        return required;
    }
    write_status_message(buffer);
    assert(buffer@.take(STATUS_MESSAGE_LEN as int) =~= status_message());
    0
}

/// What `calls` queries in a row, each with declared capacity `buffer_len`,
/// leave in `buffer`.
pub open spec fn buffer_after_calls(buffer: Seq<u8>, buffer_len: int, calls: nat) -> Seq<u8>
    decreases calls,
{
    if calls == 0 {
        buffer
    } else {
        buffer_after(buffer_after_calls(buffer, buffer_len, (calls - 1) as nat), buffer_len)
    }
}

/// A query may follow a query: what one call leaves in the buffer is again a
/// buffer that the next call accepts with the same declared capacity.
pub proof fn lemma_query_keeps_capacity(buffer: Seq<u8>, buffer_len: int)
    requires
        capacity_holds(buffer, buffer_len),
    ensures
        buffer_after(buffer, buffer_len).len() == buffer.len(),
        capacity_holds(buffer_after(buffer, buffer_len), buffer_len),
{
    lemma_status_message_bytes();
}

/// Asking again changes nothing: a second query with the same declared
/// capacity leaves the buffer as the first one left it. The result code
/// depends on the declared capacity alone, so it is the same as well.
pub proof fn lemma_query_idempotent(buffer: Seq<u8>, buffer_len: int)
    requires
        capacity_holds(buffer, buffer_len),
    ensures
        buffer_after(buffer_after(buffer, buffer_len), buffer_len) == buffer_after(
            buffer,
            buffer_len,
        ),
{
    lemma_status_message_bytes();
    assert(buffer_after(buffer_after(buffer, buffer_len), buffer_len) =~= buffer_after(
        buffer,
        buffer_len,
    ));
}

/// However often the query is repeated, the buffer holds what the first
/// call left in it.
pub proof fn lemma_repeated_queries(buffer: Seq<u8>, buffer_len: int, calls: nat)
    requires
        capacity_holds(buffer, buffer_len),
        calls >= 1,
    ensures
        buffer_after_calls(buffer, buffer_len, calls) == buffer_after(buffer, buffer_len),
    decreases calls,
{
    if calls == 1 {
        assert(buffer_after_calls(buffer, buffer_len, 0) == buffer);
    } else {
        lemma_repeated_queries(buffer, buffer_len, (calls - 1) as nat);
        lemma_query_idempotent(buffer, buffer_len);
    }
}

/// Probing works: a query with declared capacity zero touches nothing and
/// names a size, and a query on a buffer of exactly that size succeeds and
/// leaves exactly the message in it.
pub proof fn lemma_probe_then_fill(probe: Seq<u8>, buffer: Seq<u8>)
    requires
        buffer.len() == status_code(0),
    ensures
        capacity_holds(probe, 0),
        status_code(0) > 0,
        buffer_after(probe, 0) == probe,
        capacity_holds(buffer, status_code(0)),
        status_code(status_code(0)) == 0,
        buffer_after(buffer, status_code(0)) == status_message(),
{
    lemma_status_message_bytes();
    assert(buffer_after(buffer, status_code(0)) =~= status_message());
}

/// The size that a failed query names is the least capacity that succeeds:
/// a query succeeds exactly when the declared capacity reaches it, so it
/// succeeds with that size and fails, naming the size again, with one byte
/// less.
pub proof fn lemma_required_size_exact(buffer_len: int)
    ensures
        status_code(buffer_len) == 0 <==> buffer_len >= status_code(0),
        status_code(buffer_len) != 0 ==> status_code(buffer_len) == status_code(0),
        status_code(status_code(0)) == 0,
        status_code(status_code(0) - 1) == status_code(0),
        status_code(0) == status_message().len(),
{
    lemma_status_message_bytes();
}

} // verus!
