//! Byte-stream logic of the handle adapter: one open remote file or
//! directory cursor, exposed as read/write/flush/close over single
//! blocking-call attempts.
//!
//! A read or write attempt may be partial: the blocking call accepts or
//! delivers fewer bytes than asked for, and the caller resumes with the
//! remainder. The drivers here keep that resumption honest — the write
//! side proves that the slices handed out over all attempts are exactly
//! the content, the read side that the assembled bytes are exactly the
//! chunks delivered, in order, with an empty chunk signalling end of
//! stream.

use vstd::prelude::*;

use crate::error::SftpError;
use crate::suspend::Direction;

verus! {

/// The four operations a handle adapter offers on its open handle.
#[derive(Clone, Copy, Debug, PartialEq, Eq, Structural)]
pub enum HandleOp {
    /// Read bytes into a caller-provided buffer.
    Read,
    /// Write bytes from a caller-provided buffer.
    Write,
    /// Forward a flush to the underlying handle.
    Flush,
    /// Close the handle.
    Close,
}

impl HandleOp {
    /// The readiness direction the operation waits for.
    pub open spec fn spec_direction(self) -> Direction {
        if self == HandleOp::Read {
            Direction::Read
        } else {
            Direction::Write
        }
    }

    /// Classifies the operation's readiness direction: a read waits for
    /// read readiness, everything else — write, flush, close — issues a
    /// request over the transport and waits for write readiness.
    pub fn direction(&self) -> (direction: Direction)
        ensures
            direction == self.spec_direction(),
    {
        match self {
            HandleOp::Read => Direction::Read,
            HandleOp::Write => Direction::Write,
            HandleOp::Flush => Direction::Write,
            HandleOp::Close => Direction::Write,
        }
    }
}

/// What close resolves to: the guaranteed-success no-op.
///
/// Close does not invoke the underlying handle's close at all; the real
/// cleanup happens only when the adapter is dropped. This is a known
/// defect of the layer, kept deliberately rather than silently repaired,
/// because forwarding close would change when callers awaiting close
/// observe the resource being released.
pub fn close_result() -> (outcome: Result<(), SftpError>)
    ensures
        outcome == Ok::<(), SftpError>(()),
{
    Ok(())
}

/// The write side of one byte-stream transfer: the caller's content and
/// how much of it the blocking call has accepted so far.
pub struct WriteTransfer {
    buf: Vec<u8>,
    written: usize,
}

impl WriteTransfer {
    /// The content the caller asked to write.
    pub closed spec fn content(self) -> Seq<u8> {
        self.buf@
    }

    /// How many leading bytes of the content have been accepted.
    pub closed spec fn sent(self) -> nat {
        self.written as nat
    }

    /// The driver never counts more bytes as accepted than it has.
    pub open spec fn wf(self) -> bool {
        self.sent() <= self.content().len()
    }

    /// Starts a transfer of `content` with nothing accepted yet.
    pub fn new(content: Vec<u8>) -> (transfer: Self)
        ensures
            transfer.content() == content@,
            transfer.sent() == 0,
            transfer.wf(),
    {
        WriteTransfer { buf: content, written: 0 }
    }

    /// How many bytes still await acceptance.
    pub fn remaining(&self) -> (count: usize)
        requires
            self.wf(),
        ensures
            count == self.content().len() - self.sent(),
    {
        self.buf.len() - self.written
    }

    /// Whether every byte of the content has been accepted.
    pub fn is_done(&self) -> (done: bool)
        requires
            self.wf(),
        ensures
            done <==> self.sent() == self.content().len(),
    {
        self.written == self.buf.len()
    }

    /// The bytes to hand to the next blocking write attempt: exactly the
    /// not-yet-accepted tail of the content.
    pub fn pending(&self) -> (chunk: Vec<u8>)
        requires
            self.wf(),
        ensures
            chunk@ == self.content().subrange(self.sent() as int, self.content().len() as int),
    {
        let mut chunk: Vec<u8> = Vec::new();
        let mut i: usize = self.written;
        while i < self.buf.len()
            invariant
                self.written <= i <= self.buf.len(),
                chunk@ == self.buf@.subrange(self.written as int, i as int),
            decreases self.buf.len() - i,
        {
            chunk.push(self.buf[i]);
            proof {
                assert(self.buf@.subrange(self.written as int, i + 1 as int) =~= self.buf@
                    .subrange(self.written as int, i as int).push(self.buf@[i as int]));
            }
            i = i + 1;
        }
        chunk
    }

    /// Records that the blocking call accepted the next `count` bytes.
    /// The content is untouched; only the boundary between accepted and
    /// pending moves, so the bytes accepted by this attempt are exactly
    /// `content[sent .. sent + count]` — no byte is skipped and none is
    /// offered twice.
    pub fn accept(&mut self, count: usize)
        requires
            old(self).wf(),
            count <= old(self).content().len() - old(self).sent(),
        ensures
            final(self).content() == old(self).content(),
            final(self).sent() == old(self).sent() + count,
            final(self).wf(),
    {
        let limit = self.buf.len();
        proof {
            assert(self.written + count <= limit);
        }
        self.written = self.written + count;
    }
}

/// The read side of one byte-stream transfer: the bytes assembled from
/// successive blocking reads, until an empty delivery signals end of
/// stream.
pub struct ReadAssembly {
    data: Vec<u8>,
    eof: bool,
}

impl ReadAssembly {
    /// The bytes assembled so far, in delivery order.
    pub closed spec fn collected(self) -> Seq<u8> {
        self.data@
    }

    /// Whether end of stream has been observed.
    pub closed spec fn at_end(self) -> bool {
        self.eof
    }

    /// Starts with nothing read and the stream still open.
    pub fn new() -> (assembly: Self)
        ensures
            assembly.collected() == Seq::<u8>::empty(),
            !assembly.at_end(),
    {
        ReadAssembly { data: Vec::new(), eof: false }
    }

    /// Whether end of stream has been observed.
    pub fn is_at_end(&self) -> (end: bool)
        ensures
            end == self.at_end(),
    {
        self.eof
    }

    /// Feeds the bytes one blocking read delivered. A non-empty chunk is
    /// appended exactly once, in order; an empty chunk is the stream-read
    /// contract's end-of-stream signal and closes the assembly without
    /// touching the bytes.
    pub fn push_chunk(&mut self, chunk: &Vec<u8>)
        requires
            !old(self).at_end(),
        ensures
            final(self).collected() == old(self).collected() + chunk@,
            final(self).at_end() <==> chunk@.len() == 0,
    {
        if chunk.len() == 0 {
            self.eof = true;
            proof {
                assert(self.data@ =~= self.data@ + chunk@);
            }
        } else {
            let ghost before = self.data@;
            let mut i: usize = 0;
            while i < chunk.len()
                invariant
                    i <= chunk.len(),
                    self.data@ == before + chunk@.subrange(0, i as int),
                    self.eof == false,
                decreases chunk.len() - i,
            {
                self.data.push(chunk[i]);
                proof {
                    assert(chunk@.subrange(0, i + 1 as int) =~= chunk@.subrange(0, i as int).push(
                        chunk@[i as int],
                    ));
                    assert(before + chunk@.subrange(0, i + 1 as int) =~= (before + chunk@.subrange(
                        0,
                        i as int,
                    )).push(chunk@[i as int]));
                }
                i = i + 1;
            }
            proof {
                assert(chunk@.subrange(0, chunk@.len() as int) =~= chunk@);
            }
        }
    }

    /// Hands the assembled bytes out.
    pub fn into_bytes(self) -> (bytes: Vec<u8>)
        ensures
            bytes@ == self.collected(),
    {
        self.data
    }
}

/// The byte slices a retried write hands to the blocking call when the
/// successive accepted counts are `counts`: each attempt starts where the
/// previous acceptance stopped.
pub open spec fn spec_slices(content: Seq<u8>, start: int, counts: Seq<int>) -> Seq<u8>
    decreases counts.len(),
{
    if counts.len() == 0 {
        Seq::empty()
    } else {
        content.subrange(start, start + counts[0]) + spec_slices(
            content,
            start + counts[0],
            counts.drop_first(),
        )
    }
}

/// The sum of a sequence of accepted counts.
pub open spec fn spec_total(counts: Seq<int>) -> int
    decreases counts.len(),
{
    if counts.len() == 0 {
        0
    } else {
        counts[0] + spec_total(counts.drop_first())
    }
}

/// A sum of non-negative counts is non-negative.
proof fn lemma_total_nonneg(counts: Seq<int>)
    requires
        forall|i: int| 0 <= i < counts.len() ==> #[trigger] counts[i] >= 0,
    ensures
        spec_total(counts) >= 0,
    decreases counts.len(),
{
    if counts.len() > 0 {
        assert forall|i: int| 0 <= i < counts.drop_first().len() implies #[trigger] counts.drop_first()[i]
            >= 0 by {
            assert(counts.drop_first()[i] == counts[i + 1]);
        }
        lemma_total_nonneg(counts.drop_first());
    }
}

/// Partial writes lose nothing and duplicate nothing: however a write is
/// split by the counts the blocking call accepted, the slices handed out,
/// concatenated in order, are exactly the stretch of the content the
/// counts cover.
pub proof fn lemma_partial_writes_cover(content: Seq<u8>, start: int, counts: Seq<int>)
    requires
        0 <= start,
        forall|i: int| 0 <= i < counts.len() ==> #[trigger] counts[i] >= 0,
        start + spec_total(counts) <= content.len(),
    ensures
        spec_slices(content, start, counts) == content.subrange(start, start + spec_total(counts)),
    decreases counts.len(),
{
    if counts.len() == 0 {
        assert(spec_slices(content, start, counts) =~= content.subrange(start, start));
    } else {
        let rest = counts.drop_first();
        assert forall|i: int| 0 <= i < rest.len() implies #[trigger] rest[i] >= 0 by {
            assert(rest[i] == counts[i + 1]);
        }
        lemma_total_nonneg(rest);
        lemma_partial_writes_cover(content, start + counts[0], rest);
        assert(content.subrange(start, start + counts[0]) + content.subrange(
            start + counts[0],
            start + counts[0] + spec_total(rest),
        ) =~= content.subrange(start, start + spec_total(counts)));
    }
}

/// When the accepted counts sum to the whole content, the retried write
/// emits the content exactly.
pub proof fn lemma_write_complete(content: Seq<u8>, counts: Seq<int>)
    requires
        forall|i: int| 0 <= i < counts.len() ==> #[trigger] counts[i] >= 0,
        spec_total(counts) == content.len(),
    ensures
        spec_slices(content, 0, counts) == content,
{
    lemma_partial_writes_cover(content, 0, counts);
    assert(content.subrange(0, content.len() as int) =~= content);
}

/// The bytes a read loop assembles when the blocking call delivers
/// `chunks` in order.
pub open spec fn spec_collect(chunks: Seq<Seq<u8>>) -> Seq<u8>
    decreases chunks.len(),
{
    if chunks.len() == 0 {
        Seq::empty()
    } else {
        chunks[0] + spec_collect(chunks.drop_first())
    }
}

/// Round trip through the layer: content written under any sequence of
/// partial acceptances that covers it, stored verbatim, and read back in
/// any chunking that delivers the stored bytes, is assembled unchanged.
/// (The write side must be driven to completion explicitly — close is a
/// no-op and flushes nothing on its own.)
pub proof fn lemma_round_trip(content: Seq<u8>, counts: Seq<int>, chunks: Seq<Seq<u8>>)
    requires
        forall|i: int| 0 <= i < counts.len() ==> #[trigger] counts[i] >= 0,
        spec_total(counts) == content.len(),
        spec_collect(chunks) == spec_slices(content, 0, counts),
    ensures
        spec_collect(chunks) == content,
{
    lemma_write_complete(content, counts);
}

} // verus!
