//! An in-memory stand-in for a live network connection: readable from a
//! fixed buffer, writes accepted and silently discarded, and a fixed
//! synthetic peer address.

use vstd::prelude::*;
use vstd::slice::slice_to_vec;
use crate::addr::{SockAddr, spec_peer_addr, peer_addr_value};

verus! {

/// The model of a mock stream: the full readable content together with the
/// position of the read cursor within it.
pub ghost struct StreamModel {
    /// Every byte the stream was constructed with.
    pub data: Seq<u8>,
    /// How many bytes reads have consumed so far.
    pub pos: int,
}

impl StreamModel {
    /// The bytes not yet consumed: exactly what draining the stream yields.
    pub open spec fn remaining(self) -> Seq<u8> {
        self.data.skip(self.pos)
    }

    /// The cursor never leaves the content.
    pub open spec fn wf(self) -> bool {
        0 <= self.pos <= self.data.len()
    }
}

/// Draining a freshly constructed stream yields exactly the bytes it was
/// constructed from, in order, with no duplication or loss.
pub proof fn lemma_round_trip(b: Seq<u8>)
    ensures
        (StreamModel { data: b, pos: 0 }).remaining() == b,
{
    assert((StreamModel { data: b, pos: 0 }).remaining() =~= b);
}

/// Successive reads concatenate: the bytes delivered while the cursor moves
/// from `pos` to `mid`, followed by the bytes remaining at `mid`, are exactly
/// the bytes remaining at `pos`. Draining a stream through any sequence of
/// reads therefore loses and duplicates nothing.
pub proof fn lemma_reads_concatenate(m: StreamModel, mid: int)
    requires
        m.wf(),
        m.pos <= mid <= m.data.len(),
    ensures
        m.data.subrange(m.pos, mid) + m.data.skip(mid) == m.remaining(),
{
    assert(m.data.subrange(m.pos, mid) + m.data.skip(mid) =~= m.remaining());
}

/// An in-memory, clonable byte channel: its readable content is fixed at
/// construction, writes are accepted and discarded, and it reports a fixed
/// synthetic peer address.
pub struct MockStream {
    data: Vec<u8>,
    pos: usize,
}

impl View for MockStream {
    type V = StreamModel;

    closed spec fn view(&self) -> StreamModel {
        StreamModel { data: self.data@, pos: self.pos as int }
    }
}

impl MockStream {
    #[verifier::type_invariant]
    spec fn inv(self) -> bool {
        self.pos <= self.data.len()
    }

    /// Create a new `MockStream` whose readable content is exactly `input`.
    pub fn new(input: &[u8]) -> (s: MockStream)
        ensures
            s@.data == input@,
            s@.pos == 0,
    {
        MockStream { data: slice_to_vec(input), pos: 0 }
    }

    /// Copy up to `buf.len()` bytes of the remaining content into the front
    /// of `buf` and advance the cursor, returning how many bytes were copied
    /// (0 once the content is exhausted). Bytes of `buf` past that count keep
    /// their old values. Never blocks and never fails.
    pub fn read(&mut self, buf: &mut Vec<u8>) -> (n: usize)
        ensures
            n == vstd::math::min(old(buf)@.len() as int, old(self)@.remaining().len() as int),
            final(self)@.data == old(self)@.data,
            final(self)@.pos == old(self)@.pos + n,
            final(buf)@.len() == old(buf)@.len(),
            forall|j: int| 0 <= j < n ==> final(buf)@[j] == old(self)@.remaining()[j],
            forall|j: int| n <= j < old(buf)@.len() ==> final(buf)@[j] == old(buf)@[j],
            final(self)@.remaining() == old(self)@.remaining().skip(n as int),
    {
        proof {
            use_type_invariant(&*self);
        }
        let avail: usize = self.data.len() - self.pos;
        let n: usize = if buf.len() < avail {
            buf.len()
        } else {
            avail
        };
        let mut i: usize = 0;
        while i < n
            invariant
                i <= n,
                n <= buf@.len(),
                self.pos + n <= self.data.len(),
                self@ == old(self)@,
                buf@.len() == old(buf)@.len(),
                forall|j: int| 0 <= j < i ==> buf@[j] == self@.data[self@.pos + j],
                forall|j: int| i <= j < buf@.len() ==> buf@[j] == old(buf)@[j],
            decreases n - i,
        {
            let b: u8 = self.data[self.pos + i];
            buf[i] = b;
            i += 1;
        }
        self.pos = self.pos + n;
        proof {
            assert(self@.remaining() =~= old(self)@.remaining().skip(n as int));
        }
        n
    }

    /// Drain the remaining unread content: returns every byte the cursor had
    /// not yet passed, in order, and leaves the stream exhausted.
    pub fn read_to_end(&mut self) -> (r: Vec<u8>)
        ensures
            r@ == old(self)@.remaining(),
            final(self)@.data == old(self)@.data,
            final(self)@.remaining() == Seq::<u8>::empty(),
    {
        proof {
            use_type_invariant(&*self);
        }
        let mut r: Vec<u8> = Vec::new();
        while self.pos < self.data.len()
            invariant
                self.pos <= self.data.len(),
                self@.data == old(self)@.data,
                old(self)@.pos <= self@.pos,
                r@ == old(self)@.data.subrange(old(self)@.pos, self@.pos),
            decreases self.data.len() - self.pos,
        {
            let b: u8 = self.data[self.pos];
            r.push(b);
            proof {
                assert(r@ =~= old(self)@.data.subrange(old(self)@.pos, self@.pos + 1));
            }
            self.pos = self.pos + 1;
        }
        proof {
            assert(r@ =~= old(self)@.remaining());
            assert(self@.remaining() =~= Seq::<u8>::empty());
        }
        r
    }

    /// Accept `msg` and discard it, reporting the full length as written.
    /// The readable content and the cursor are untouched. Never fails.
    pub fn write(&mut self, msg: &[u8]) -> (n: usize)
        ensures
            n == msg@.len(),
            *final(self) == *old(self),
    {
        msg.len()
    }

    /// Do nothing, successfully.
    pub fn flush(&mut self)
        ensures
            *final(self) == *old(self),
    {
    }

    /// Report the fixed synthetic peer address, `[::1]:2468`. The result
    /// never depends on the stream's state, so repeated calls, and calls on
    /// clones, always agree.
    pub fn peer_addr(&self) -> (a: SockAddr)
        ensures
            a == spec_peer_addr(),
    {
        peer_addr_value()
    }
}

impl Clone for MockStream {
    /// Cloning yields an independent stream whose content matches the
    /// original's at clone time and whose cursor is reset to the start,
    /// whatever the original had already read.
    fn clone(&self) -> (s: MockStream)
        ensures
            s@.data == self@.data,
            s@.pos == 0,
    {
        MockStream { data: slice_to_vec(self.data.as_slice()), pos: 0 }
    }
}

} // verus!
