use vstd::prelude::*;
use vstd::slice::slice_subrange;
use crate::io_kind::IoErrorKind;

verus! {

/// Why a copier stopped.
#[derive(Clone, Copy, Debug, PartialEq, Eq, Structural)]
pub enum StopReason {
    /// The source reported end of stream; everything read was delivered.
    SourceClosed,
    /// The destination accepted no more bytes.
    DestinationClosed,
    /// A read or a write failed.
    Failed(IoErrorKind),
}

/// What the copier wants done next.
#[derive(Clone, Copy, Debug, PartialEq, Eq, Structural)]
pub enum CopyStep {
    /// Read some bytes from the source and report them with `on_read`.
    Read,
    /// Write `pending_bytes` to the destination and report with `on_written`.
    Write,
    /// Nothing more: the copier has stopped.
    Done(StopReason),
}

/// Copies one direction of a connection: bytes read from the source are
/// handed to the destination unchanged and in order. The copier decides; its
/// caller performs each read and write and reports the outcome. It never
/// closes either end.
pub struct Copier {
    buf: Vec<u8>,
    pos: usize,
    stop: Option<StopReason>,
    total: u64,
    received: Ghost<Seq<u8>>,
    forwarded: Ghost<Seq<u8>>,
}

pub open spec fn saturating_len(n: nat) -> u64 {
    if n > u64::MAX {
        u64::MAX
    } else {
        n as u64
    }
}

impl Copier {
    /// Every byte read from the source so far.
    pub closed spec fn received(self) -> Seq<u8> {
        self.received@
    }

    /// Every byte written to the destination so far.
    pub closed spec fn forwarded(self) -> Seq<u8> {
        self.forwarded@
    }

    /// Bytes read and not yet written.
    pub closed spec fn pending(self) -> Seq<u8> {
        self.buf@.subrange(self.pos as int, self.buf@.len() as int)
    }

    pub closed spec fn stopped(self) -> Option<StopReason> {
        self.stop
    }

    /// The number of bytes written, saturated at the largest `u64`.
    pub closed spec fn total_spec(self) -> u64 {
        self.total
    }

    pub closed spec fn wf(self) -> bool {
        &&& self.pos <= self.buf@.len()
        &&& self.received@ == self.forwarded@ + self.pending()
        &&& self.total == saturating_len(self.forwarded@.len())
        &&& self.stop == Some(StopReason::SourceClosed) ==> self.pending().len() == 0
    }

    pub open spec fn step_spec(self) -> CopyStep {
        match self.stopped() {
            Some(reason) => CopyStep::Done(reason),
            None => if self.pending().len() == 0 {
                CopyStep::Read
            } else {
                CopyStep::Write
            },
        }
    }

    pub fn new() -> (c: Copier)
        ensures
            c.wf(),
            c.received() == Seq::<u8>::empty(),
            c.forwarded() == Seq::<u8>::empty(),
            c.pending() == Seq::<u8>::empty(),
            c.stopped() is None,
            c.total_spec() == 0,
    {
        let c = Copier {
            buf: Vec::new(),
            pos: 0,
            stop: None,
            total: 0,
            received: Ghost(Seq::empty()),
            forwarded: Ghost(Seq::empty()),
        };
        assert(c.pending() =~= Seq::<u8>::empty());
        c
    }

    pub fn next_step(&self) -> (r: CopyStep)
        requires
            self.wf(),
        ensures
            r == self.step_spec(),
    {
        match self.stop {
            Some(reason) => CopyStep::Done(reason),
            None => if self.pos == self.buf.len() {
                CopyStep::Read
            } else {
                CopyStep::Write
            },
        }
    }

    /// The bytes to write next.
    pub fn pending_bytes(&self) -> (r: &[u8])
        requires
            self.wf(),
        ensures
            r@ == self.pending(),
    {
        slice_subrange(self.buf.as_slice(), self.pos, self.buf.len())
    }

    pub fn stop_reason(&self) -> (r: Option<StopReason>)
        ensures
            r == self.stopped(),
    {
        self.stop
    }

    /// The number of bytes delivered to the destination.
    pub fn total(&self) -> (r: u64)
        ensures
            r == self.total_spec(),
    {
        self.total
    }

    /// Reports a completed read: `data` is what the source gave; empty means
    /// end of stream.
    pub fn on_read(&mut self, data: Vec<u8>)
        requires
            old(self).wf(),
            old(self).step_spec() == CopyStep::Read,
        ensures
            final(self).wf(),
            final(self).forwarded() == old(self).forwarded(),
            final(self).total_spec() == old(self).total_spec(),
            final(self).received() == old(self).received() + data@,
            data@.len() == 0 ==> final(self).stopped() == Some(StopReason::SourceClosed),
            data@.len() > 0 ==> final(self).stopped() is None && final(self).pending() == data@,
    {
        if data.len() == 0 {
            self.stop = Some(StopReason::SourceClosed);
            assert(data@ =~= Seq::<u8>::empty());
            assert(self.received@ =~= self.received@ + data@);
        } else {
            self.received = Ghost(self.received@ + data@);
            self.buf = data;
            self.pos = 0;
            assert(self.pending() =~= self.buf@);
            assert(old(self).pending() =~= Seq::<u8>::empty());
            assert(self.received@ =~= self.forwarded@ + self.pending());
        }
    }

    /// Reports a failed read.
    pub fn on_read_failed(&mut self, kind: IoErrorKind)
        requires
            old(self).wf(),
            old(self).step_spec() == CopyStep::Read,
        ensures
            final(self).wf(),
            final(self).received() == old(self).received(),
            final(self).forwarded() == old(self).forwarded(),
            final(self).total_spec() == old(self).total_spec(),
            final(self).stopped() == Some(StopReason::Failed(kind)),
    {
        self.stop = Some(StopReason::Failed(kind));
    }

    /// Reports a completed write: the destination accepted the first `n`
    /// pending bytes; none means it is closed.
    pub fn on_written(&mut self, n: usize)
        requires
            old(self).wf(),
            old(self).step_spec() == CopyStep::Write,
            n <= old(self).pending().len(),
        ensures
            final(self).wf(),
            final(self).received() == old(self).received(),
            n == 0 ==> final(self).forwarded() == old(self).forwarded()
                && final(self).stopped() == Some(StopReason::DestinationClosed),
            n > 0 ==> final(self).forwarded() == old(self).forwarded() + old(self).pending().take(
                n as int,
            ) && final(self).pending() == old(self).pending().skip(n as int)
                && final(self).stopped() is None,
            final(self).total_spec() == saturating_len(final(self).forwarded().len()),
    {
        if n == 0 {
            self.stop = Some(StopReason::DestinationClosed);
        } else {
            let ghost old_pending = self.pending();
            let blen = self.buf.len();
            assert(old_pending.len() == blen - self.pos);
            self.forwarded = Ghost(self.forwarded@ + old_pending.take(n as int));
            self.pos = self.pos + n;
            self.total = self.total.saturating_add(n as u64);
            assert(self.pending() =~= old_pending.skip(n as int));
            assert(self.received@ =~= self.forwarded@ + self.pending());
        }
    }

    /// Reports a failed write. A broken pipe or a refused write means that
    /// the destination is closed.
    pub fn on_write_failed(&mut self, kind: IoErrorKind)
        requires
            old(self).wf(),
            old(self).step_spec() == CopyStep::Write,
        ensures
            final(self).wf(),
            final(self).received() == old(self).received(),
            final(self).forwarded() == old(self).forwarded(),
            final(self).total_spec() == old(self).total_spec(),
            final(self).stopped() == Some(
                if kind == IoErrorKind::BrokenPipe || kind == IoErrorKind::WriteZero {
                    StopReason::DestinationClosed
                } else {
                    StopReason::Failed(kind)
                },
            ),
    {
        if kind == IoErrorKind::BrokenPipe || kind == IoErrorKind::WriteZero {
            self.stop = Some(StopReason::DestinationClosed);
        } else {
            self.stop = Some(StopReason::Failed(kind));
        }
    }
}

/// A copier only ever delivers a prefix of what it read, in order and
/// unchanged, and counts what it delivered; once the source has closed, it
/// has delivered exactly what it read, and its count is that length.
pub proof fn lemma_copier_faithful(c: Copier)
    requires
        c.wf(),
    ensures
        c.forwarded().len() <= c.received().len(),
        c.received().take(c.forwarded().len() as int) == c.forwarded(),
        c.total_spec() == saturating_len(c.forwarded().len()),
        c.stopped() == Some(StopReason::SourceClosed) ==> c.forwarded() == c.received(),
        c.stopped() == Some(StopReason::SourceClosed) && c.received().len() <= u64::MAX
            ==> c.total_spec() == c.received().len(),
{
    assert(c.received().take(c.forwarded().len() as int) =~= c.forwarded());
    if c.stopped() == Some(StopReason::SourceClosed) {
        assert(c.received() =~= c.forwarded());
    }
}

} // verus!
