//! Exact-byte transfer over a stream that may split any send or receive.
//!
//! A connection-oriented socket may accept or deliver fewer bytes than asked
//! for. The engine here never leaks a partial frame to a caller: a receive
//! buffer absorbs arbitrary chunks until the wanted count is reached, and a
//! send plan slices a payload into exactly the pieces the transport accepts.
//! The socket calls themselves stay outside the library; its callers hand in
//! each chunk (or each accepted count) and drive these engines in a loop.

use vstd::math::min;
use vstd::prelude::*;

verus! {

/// How many consecutive zero-byte reads are tolerated before the connection
/// is treated as closed by the peer.
pub const MAX_ZERO_READS: u32 = 64;

/// How many pending connections the listening socket may queue.
pub const BACKLOG: usize = 128;

/// Flatten a sequence of chunks into the byte stream they spell.
pub open spec fn flatten_chunks(cs: Seq<Seq<u8>>) -> Seq<u8>
    decreases cs.len(),
{
    if cs.len() == 0 {
        Seq::empty()
    } else {
        flatten_chunks(cs.drop_last()) + cs.last()
    }
}

/// The views of a vector of byte chunks.
pub open spec fn chunk_views(cs: Seq<Vec<u8>>) -> Seq<Seq<u8>> {
    cs.map_values(|c: Vec<u8>| c@)
}

/// The first `n` bytes of `s`, or all of `s` where it is shorter.
pub open spec fn take_at_most(s: Seq<u8>, n: int) -> Seq<u8> {
    if n <= s.len() {
        s.take(n)
    } else {
        s
    }
}

/// Flattening one more chunk appends that chunk to the stream.
proof fn lemma_flatten_step(cs: Seq<Seq<u8>>, i: int)
    requires
        0 <= i < cs.len(),
    ensures
        flatten_chunks(cs.take(i + 1)) == flatten_chunks(cs.take(i)) + cs[i],
{
    assert(cs.take(i + 1).drop_last() =~= cs.take(i));
    assert(cs.take(i + 1).last() == cs[i]);
}

/// A buffer that absorbs chunks until it holds exactly `want` bytes.
pub struct RecvBuffer {
    data: Vec<u8>,
    want: usize,
}

impl RecvBuffer {
    /// The bytes absorbed so far.
    pub closed spec fn data_spec(&self) -> Seq<u8> {
        self.data@
    }

    /// The exact byte count this buffer is waiting for.
    pub closed spec fn want_spec(&self) -> int {
        self.want as int
    }

    /// The buffer never holds more than it wants.
    pub open spec fn wf(&self) -> bool {
        self.data_spec().len() <= self.want_spec()
    }

    /// An empty buffer waiting for exactly `want` bytes.
    pub fn new(want: usize) -> (r: RecvBuffer)
        ensures
            r.wf(),
            r.want_spec() == want,
            r.data_spec() == Seq::<u8>::empty(),
    {
        RecvBuffer { data: Vec::new(), want }
    }

    /// How many bytes are still missing.
    pub fn missing(&self) -> (r: usize)
        requires
            self.wf(),
        ensures
            r == self.want_spec() - self.data_spec().len(),
    {
        self.want - self.data.len()
    }

    /// Whether the wanted count has been reached.
    pub fn complete(&self) -> (r: bool)
        requires
            self.wf(),
        ensures
            r <==> self.data_spec().len() == self.want_spec(),
    {
        self.data.len() == self.want
    }

    /// Absorb one delivered chunk, taking from its front only as much as is
    /// still missing, and report how much was taken.
    pub fn feed(&mut self, chunk: &Vec<u8>) -> (took: usize)
        requires
            old(self).wf(),
        ensures
            final(self).wf(),
            final(self).want_spec() == old(self).want_spec(),
            took == min(chunk@.len() as int, old(self).want_spec() - old(self).data_spec().len()),
            final(self).data_spec() == old(self).data_spec() + chunk@.take(took as int),
    {
        let need = self.want - self.data.len();
        let took = if chunk.len() <= need {
            chunk.len()
        } else {
            need
        };
        let mut j: usize = 0;
        while j < took
            invariant
                0 <= j <= took,
                took <= chunk@.len(),
                self.want == old(self).want,
                self.data@.len() + took - j <= self.want,
                self.data@ == old(self).data_spec() + chunk@.take(j as int),
            decreases took - j,
        {
            self.data.push(chunk[j]);
            j += 1;
            proof {
                assert(self.data@ =~= old(self).data_spec() + chunk@.take(j as int));
            }
        }
        took
    }

    /// Hand the assembled bytes out once the wanted count is reached.
    pub fn into_bytes(self) -> (r: Vec<u8>)
        requires
            self.wf(),
            self.data_spec().len() == self.want_spec(),
        ensures
            r@ == self.data_spec(),
    {
        self.data
    }
}

/// Receive an exact byte count from a transport that delivered the given
/// chunks, in order. Returns the assembled bytes when the chunks cover the
/// wanted count, and nothing when the stream falls short.
///
/// Whatever sizes the transport chose for the chunks, the result is exactly
/// the first `want` bytes of the delivered stream.
pub fn gather_exact(chunks: &Vec<Vec<u8>>, want: usize) -> (r: Option<Vec<u8>>)
    ensures
        r is Some <==> flatten_chunks(chunk_views(chunks@)).len() >= want,
        r is Some ==> r->0@ == flatten_chunks(chunk_views(chunks@)).take(want as int),
{
    let ghost cs = chunk_views(chunks@);
    let mut buf = RecvBuffer::new(want);
    let mut i: usize = 0;
    while i < chunks.len()
        invariant
            0 <= i <= chunks@.len(),
            cs == chunk_views(chunks@),
            cs.len() == chunks@.len(),
            forall|k: int| 0 <= k < cs.len() ==> cs[k] == chunks@[k]@,
            buf.wf(),
            buf.want_spec() == want,
            buf.data_spec() == take_at_most(flatten_chunks(cs.take(i as int)), want as int),
        decreases chunks@.len() - i,
    {
        let ghost flat_before = flatten_chunks(cs.take(i as int));
        let took = buf.feed(&chunks[i]);
        proof {
            lemma_flatten_step(cs, i as int);
            let c = cs[i as int];
            let flat_after = flat_before + c;
            if flat_before.len() >= want {
                assert(took == 0);
                assert(c.take(0) =~= Seq::<u8>::empty());
                assert(buf.data_spec() =~= take_at_most(flat_after, want as int));
            } else {
                assert(buf.data_spec() =~= take_at_most(flat_after, want as int));
            }
        }
        i += 1;
    }
    proof {
        assert(cs.take(chunks@.len() as int) =~= cs);
    }
    if buf.complete() {
        Some(buf.into_bytes())
    } else {
        None
    }
}

/// Send an exact byte count over a transport that accepts at most
/// `accepts[i]` bytes on the `i`-th call. Returns the pieces put on the wire
/// when the acceptances cover the payload, and nothing when they fall short.
///
/// Whatever sizes the transport accepted, the pieces concatenate to exactly
/// the payload: nothing is dropped, duplicated or reordered.
pub fn emit_exact(payload: &Vec<u8>, accepts: &Vec<usize>) -> (r: Option<Vec<Vec<u8>>>)
    ensures
        r is Some <==> sum_of(accepts@) >= payload@.len(),
        r is Some ==> flatten_chunks(chunk_views(r->0@)) == payload@,
{
    let len = payload.len();
    let mut out: Vec<Vec<u8>> = Vec::new();
    let mut sent: usize = 0;
    let mut i: usize = 0;
    while i < accepts.len()
        invariant
            0 <= i <= accepts@.len(),
            sent <= len,
            len == payload@.len(),
            sent == min(len as int, sum_of(accepts@.take(i as int))),
            flatten_chunks(chunk_views(out@)) == payload@.take(sent as int),
        decreases accepts@.len() - i,
    {
        let remaining = len - sent;
        let cap = accepts[i];
        let n = if cap <= remaining {
            cap
        } else {
            remaining
        };
        let mut piece: Vec<u8> = Vec::new();
        let mut j: usize = 0;
        while j < n
            invariant
                0 <= j <= n,
                sent + n <= len,
                len == payload@.len(),
                piece@ == payload@.subrange(sent as int, sent + j as int),
            decreases n - j,
        {
            piece.push(payload[sent + j]);
            j += 1;
            proof {
                assert(piece@ =~= payload@.subrange(sent as int, sent + j as int));
            }
        }
        proof {
            let ghost before = chunk_views(out@);
            assert(chunk_views(out@.push(piece)).drop_last() =~= before);
            assert(chunk_views(out@.push(piece)).last() == piece@);
            assert(flatten_chunks(chunk_views(out@.push(piece))) == flatten_chunks(before)
                + piece@);
            assert(payload@.take(sent as int) + payload@.subrange(sent as int, (sent + n) as int)
                =~= payload@.take((sent + n) as int));
            lemma_sum_step(accepts@, i as int);
        }
        out.push(piece);
        sent = sent + n;
        i += 1;
    }
    proof {
        assert(accepts@.take(accepts@.len() as int) =~= accepts@);
    }
    if sent == len {
        proof {
            assert(payload@.take(len as int) =~= payload@);
        }
        Some(out)
    } else {
        None
    }
}

/// The sum of a sequence of accepted byte counts.
pub open spec fn sum_of(s: Seq<usize>) -> int
    decreases s.len(),
{
    if s.len() == 0 {
        0
    } else {
        sum_of(s.drop_last()) + s.last()
    }
}

/// Summing one more count adds that count.
proof fn lemma_sum_step(s: Seq<usize>, i: int)
    requires
        0 <= i < s.len(),
    ensures
        sum_of(s.take(i + 1)) == sum_of(s.take(i)) + s[i],
{
    assert(s.take(i + 1).drop_last() =~= s.take(i));
    assert(s.take(i + 1).last() == s[i]);
}

/// Progress of one exact-length send across repeated socket calls.
pub struct SendProgress {
    total: usize,
    sent: usize,
}

impl SendProgress {
    /// How many bytes the whole send must put on the wire.
    pub closed spec fn total_spec(&self) -> int {
        self.total as int
    }

    /// How many bytes the transport has accepted so far.
    pub closed spec fn sent_spec(&self) -> int {
        self.sent as int
    }

    /// Never more accepted than asked for.
    pub open spec fn wf(&self) -> bool {
        self.sent_spec() <= self.total_spec()
    }

    /// A send of `total` bytes with nothing accepted yet.
    pub fn new(total: usize) -> (r: SendProgress)
        ensures
            r.wf(),
            r.total_spec() == total,
            r.sent_spec() == 0,
    {
        SendProgress { total, sent: 0 }
    }

    /// The offset of the next byte to hand to the transport.
    pub fn offset(&self) -> (r: usize)
        ensures
            r == self.sent_spec(),
    {
        self.sent
    }

    /// How many bytes remain to be accepted.
    pub fn remaining(&self) -> (r: usize)
        requires
            self.wf(),
        ensures
            r == self.total_spec() - self.sent_spec(),
    {
        self.total - self.sent
    }

    /// Record that the transport accepted `n` more bytes.
    pub fn advance(&mut self, n: usize)
        requires
            old(self).wf(),
            n <= old(self).total_spec() - old(self).sent_spec(),
        ensures
            final(self).wf(),
            final(self).total_spec() == old(self).total_spec(),
            final(self).sent_spec() == old(self).sent_spec() + n,
    {
        self.sent = self.sent + n;
    }

    /// Whether every byte has been accepted.
    pub fn done(&self) -> (r: bool)
        requires
            self.wf(),
        ensures
            r <==> self.sent_spec() == self.total_spec(),
    {
        self.sent == self.total
    }
}

/// Counter of consecutive zero-byte reads, which signal a peer that closed
/// the connection rather than a transient short read.
pub struct ZeroReadGuard {
    zeros: u32,
}

impl ZeroReadGuard {
    /// The consecutive zero-byte reads seen so far.
    pub closed spec fn zeros_spec(&self) -> int {
        self.zeros as int
    }

    /// A guard that has seen no zero-byte read.
    pub fn new() -> (r: ZeroReadGuard)
        ensures
            r.zeros_spec() == 0,
    {
        ZeroReadGuard { zeros: 0 }
    }

    /// Record the byte count of one read: a zero read counts toward the
    /// bound, any progress resets it.
    pub fn on_read(&mut self, n: usize)
        ensures
            n == 0 && old(self).zeros_spec() < u32::MAX ==> final(self).zeros_spec() == old(
                self,
            ).zeros_spec() + 1,
            n == 0 && old(self).zeros_spec() == u32::MAX ==> final(self).zeros_spec() == old(
                self,
            ).zeros_spec(),
            n != 0 ==> final(self).zeros_spec() == 0,
    {
        if n == 0 {
            if self.zeros < u32::MAX {
                self.zeros = self.zeros + 1;
            }
        } else {
            self.zeros = 0;
        }
    }

    /// Whether the bound on consecutive zero-byte reads has been reached and
    /// the connection should be treated as closed.
    pub fn exhausted(&self) -> (r: bool)
        ensures
            r <==> self.zeros_spec() >= MAX_ZERO_READS,
    {
        self.zeros >= MAX_ZERO_READS
    }
}

} // verus!
