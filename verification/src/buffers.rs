//! Byte queues of a session: bytes are appended at the back and drained from
//! the front, and keep their order in between.

use vstd::prelude::*;

verus! {

/// The smaller of two lengths.
pub open spec fn spec_min(a: int, b: int) -> int {
    if a <= b {
        a
    } else {
        b
    }
}

/// The smaller of two lengths.
pub fn min(a: usize, b: usize) -> (m: usize)
    ensures
        m == spec_min(a as int, b as int),
{
    if a <= b {
        a
    } else {
        b
    }
}

/// Appends `bytes` to the back of `queue`, emptying `bytes`.
pub fn append(queue: &mut Vec<u8>, bytes: Vec<u8>)
    ensures
        final(queue)@ == old(queue)@ + bytes@,
{
    let mut bytes = bytes;
    queue.append(&mut bytes);
}

/// Removes the first `count` bytes of `queue`, or all of them if there are
/// fewer, and returns them in order.
pub fn drain_front(queue: &mut Vec<u8>, count: usize) -> (front: Vec<u8>)
    ensures
        front@ == old(queue)@.take(spec_min(count as int, old(queue)@.len() as int)),
        final(queue)@ == old(queue)@.skip(spec_min(count as int, old(queue)@.len() as int)),
{
    let at = min(count, queue.len());
    let mut other = queue.split_off(at);
    core::mem::swap(queue, &mut other);
    other
}

/// What a byte queue pair holds.
pub struct StreamBuffersView {
    /// Encrypted bytes that the security engine has not consumed yet.
    pub encrypted: Seq<u8>,
    /// Decrypted bytes that the caller has not been given yet.
    pub decrypted: Seq<u8>,
}

/// The leftovers of a stream between two calls: encrypted bytes that the
/// security engine has not consumed yet, and decrypted bytes that the caller
/// has not been given yet.
#[derive(Debug)]
pub struct StreamBuffers {
    encrypted: Vec<u8>,
    decrypted: Vec<u8>,
}

impl View for StreamBuffers {
    type V = StreamBuffersView;

    closed spec fn view(&self) -> StreamBuffersView {
        StreamBuffersView { encrypted: self.encrypted@, decrypted: self.decrypted@ }
    }
}

impl StreamBuffers {
    /// Buffers that start out with encrypted leftovers and nothing decrypted.
    pub fn new(encrypted: Vec<u8>) -> (buffers: StreamBuffers)
        ensures
            buffers@.encrypted == encrypted@,
            buffers@.decrypted == Seq::<u8>::empty(),
    {
        StreamBuffers { encrypted, decrypted: Vec::new() }
    }

    /// The encrypted leftovers, oldest first.
    pub fn encrypted(&self) -> (bytes: &[u8])
        ensures
            bytes@ == self@.encrypted,
    {
        self.encrypted.as_slice()
    }

    /// The decrypted leftovers, oldest first.
    pub fn decrypted(&self) -> (bytes: &[u8])
        ensures
            bytes@ == self@.decrypted,
    {
        self.decrypted.as_slice()
    }

    /// Queues bytes that came from the transport behind the encrypted
    /// leftovers.
    pub fn extend_encrypted(&mut self, bytes: Vec<u8>)
        ensures
            final(self)@.encrypted == old(self)@.encrypted + bytes@,
            final(self)@.decrypted == old(self)@.decrypted,
    {
        append(&mut self.encrypted, bytes);
    }

    /// Drops the first `count` encrypted bytes, which the engine has
    /// consumed; all of them if there are fewer.
    pub fn consume_encrypted(&mut self, count: usize)
        ensures
            final(self)@.encrypted == old(self)@.encrypted.skip(
                spec_min(count as int, old(self)@.encrypted.len() as int),
            ),
            final(self)@.decrypted == old(self)@.decrypted,
    {
        let _ = drain_front(&mut self.encrypted, count);
    }

    /// Queues bytes that the engine decrypted behind the decrypted
    /// leftovers.
    pub fn extend_decrypted(&mut self, bytes: Vec<u8>)
        ensures
            final(self)@.decrypted == old(self)@.decrypted + bytes@,
            final(self)@.encrypted == old(self)@.encrypted,
    {
        append(&mut self.decrypted, bytes);
    }

    /// Hands out up to `limit` decrypted bytes, oldest first, and keeps the
    /// rest for the next call.
    pub fn take_decrypted(&mut self, limit: usize) -> (bytes: Vec<u8>)
        ensures
            bytes@ == old(self)@.decrypted.take(
                spec_min(limit as int, old(self)@.decrypted.len() as int),
            ),
            final(self)@.decrypted == old(self)@.decrypted.skip(
                spec_min(limit as int, old(self)@.decrypted.len() as int),
            ),
            final(self)@.encrypted == old(self)@.encrypted,
    {
        drain_front(&mut self.decrypted, limit)
    }
}

/// Draining gives back what was appended, in the order in which it was
/// appended: what is handed out followed by what stays is the queue as it
/// was.
pub proof fn lemma_drain_keeps_order(queue: Seq<u8>, count: int)
    requires
        0 <= count,
    ensures
        queue.take(spec_min(count, queue.len() as int)) + queue.skip(
            spec_min(count, queue.len() as int),
        ) == queue,
{
}

/// Bytes appended to a queue come out after everything that was queued
/// before them.
pub proof fn lemma_append_then_drain(queue: Seq<u8>, bytes: Seq<u8>)
    ensures
        (queue + bytes).take(queue.len() as int) == queue,
        (queue + bytes).skip(queue.len() as int) == bytes,
{
}

} // verus!
