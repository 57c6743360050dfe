//! The reply buffer shared between the service and the enclave.
//!
//! The service hands the enclave a zeroed buffer; the enclave writes its
//! serialized reply to the front of it; the service reads the reply back as
//! the bytes before the first zero byte (or the whole buffer when there is
//! none).
use vstd::prelude::*;

verus! {

/// `n` is where the reply at the front of `buffer` ends: no byte before it is
/// zero, and it is the length of the buffer or the position of a zero byte.
pub open spec fn is_reply_end(buffer: Seq<u8>, n: int) -> bool {
    &&& 0 <= n <= buffer.len()
    &&& forall|i: int| 0 <= i < n ==> buffer[i] != 0
    &&& n < buffer.len() ==> buffer[n] == 0
}

/// What the buffer holds after `reply` was written to its front.
pub open spec fn written(buffer: Seq<u8>, reply: Seq<u8>) -> Seq<u8> {
    reply + buffer.subrange(reply.len() as int, buffer.len() as int)
}

/// Writes `reply` to the front of `buffer`, leaving the rest of it as it was.
pub fn write_reply(buffer: &mut [u8], reply: &[u8])
    requires
        reply@.len() <= old(buffer)@.len(),
    ensures
        final(buffer)@ == written(old(buffer)@, reply@),
{
    let n: usize = reply.len();
    let mut i: usize = 0;
    while i < n
        invariant
            n == reply@.len(),
            n <= buffer@.len(),
            buffer@.len() == old(buffer)@.len(),
            0 <= i <= n,
            forall|j: int| 0 <= j < i ==> buffer@[j] == reply@[j],
            forall|j: int| n <= j < buffer@.len() ==> buffer@[j] == old(buffer)@[j],
        decreases n - i,
    {
        buffer[i] = reply[i];
        i = i + 1;
    }
    assert(buffer@ =~= written(old(buffer)@, reply@));
}

/// The length of the reply at the front of `buffer`: the position of its
/// first zero byte, or its whole length when it holds none.
pub fn reply_len(buffer: &[u8]) -> (r: usize)
    ensures
        is_reply_end(buffer@, r as int),
{
    let n: usize = buffer.len();
    let mut i: usize = 0;
    while i < n
        invariant
            n == buffer@.len(),
            0 <= i <= n,
            forall|j: int| 0 <= j < i ==> buffer@[j] != 0,
        decreases n - i,
    {
        if buffer[i] == 0 {
            return i;
        }
        i = i + 1;
    }
    i
}

/// Only one position ends the reply: the first zero byte, or the end.
pub proof fn lemma_reply_end_unique(buffer: Seq<u8>, m: int, n: int)
    requires
        is_reply_end(buffer, m),
        is_reply_end(buffer, n),
    ensures
        m == n,
{
}

/// A reply without zero bytes, written to the front of a zeroed buffer that
/// can hold it, is read back whole: the reply ends exactly at its length,
/// and the bytes before that are the reply.
pub proof fn lemma_reply_round_trip(buffer: Seq<u8>, reply: Seq<u8>)
    requires
        reply.len() <= buffer.len(),
        forall|i: int| 0 <= i < buffer.len() ==> buffer[i] == 0,
        forall|i: int| 0 <= i < reply.len() ==> reply[i] != 0,
    ensures
        is_reply_end(written(buffer, reply), reply.len() as int),
        forall|n: int| is_reply_end(written(buffer, reply), n) ==> n == reply.len(),
        written(buffer, reply).subrange(0, reply.len() as int) == reply,
{
    let w = written(buffer, reply);
    assert(w.len() == buffer.len());
    if reply.len() < buffer.len() {
        assert(w[reply.len() as int] == buffer[reply.len() as int]);
    }
    assert forall|n: int| is_reply_end(w, n) implies n == reply.len() by {
        lemma_reply_end_unique(w, n, reply.len() as int);
    }
    assert(w.subrange(0, reply.len() as int) =~= reply);
}

} // verus!
