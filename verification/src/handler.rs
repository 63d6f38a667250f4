//! The per-connection echo handler.
//!
//! One [`Handler`] owns one accepted connection for the connection's whole
//! life. It is a step function over the connection's events: the transport
//! reports each read outcome, the handler answers with what to do next, and
//! the transport reports back whether the write went through. The handler's
//! invariant ties the bytes confirmed written to the bytes received, which
//! is the echo guarantee: a connection gets back exactly what it sent, in
//! order, and nothing from any other connection.

use vstd::prelude::*;
use crate::chunks::concat_chunks;
use crate::chunks::lemma_concat_take_succ;

verus! {

/// Size of the fixed read buffer a transport should use: a single read
/// hands the handler at most this many bytes.
pub const BUF_SIZE: usize = 1024;

/// How a finished session ended.
#[derive(Clone, Copy, Debug, PartialEq, Eq, Structural)]
pub enum SessionEnd {
    /// The peer closed its write side; every received byte had been echoed.
    CleanClose,
    /// A read failed; the session stops and the failure is reported.
    ReadError,
    /// A write failed; the session stops and the failure is reported.
    WriteError,
}

/// The handler's state: reading, waiting for a write to finish, or done.
#[derive(Clone, Copy, Debug, PartialEq, Eq, Structural)]
pub enum Phase {
    Reading,
    Writing,
    Closed(SessionEnd),
}

/// What one read attempt on the connection produced.
#[derive(Debug)]
pub enum ReadOutcome {
    /// The peer performed an orderly close (a read of zero bytes).
    Eof,
    /// The read delivered these bytes.
    Data(Vec<u8>),
    /// The read failed.
    Failed,
}

/// What the handler asks the transport to do after a read.
#[derive(Debug)]
pub enum ReadStep {
    /// Write all of these bytes back to the same connection, then report
    /// the result with [`Handler::on_write_result`].
    Write(Vec<u8>),
    /// The session is over; release the connection. Anything but
    /// [`SessionEnd::CleanClose`] deserves a diagnostic.
    Done(SessionEnd),
}

/// The bytes a read outcome delivered: the chunk for a successful read,
/// nothing for end-of-stream or a failure.
pub open spec fn read_data(outcome: ReadOutcome) -> Seq<u8> {
    match outcome {
        ReadOutcome::Data(bytes) => bytes@,
        _ => Seq::empty(),
    }
}

/// The state machine that services one connection.
///
/// The ghost fields record the connection's history: `received` is every
/// byte the peer has sent, `echoed` every byte confirmed written back, and
/// `pending` the chunk currently being written. The well-formedness
/// invariant keeps `echoed` exactly one in-flight chunk behind `received`.
pub struct Handler {
    /// Where the session stands.
    pub phase: Phase,
    /// Every byte received so far, in arrival order.
    pub received: Ghost<Seq<u8>>,
    /// Every byte confirmed written back so far, in order.
    pub echoed: Ghost<Seq<u8>>,
    /// The chunk handed to the transport but not yet confirmed written.
    pub pending: Ghost<Seq<u8>>,
}

impl Handler {
    /// The handler's invariant: what has been echoed never deviates from
    /// what was received. While reading, or after any close that is not a
    /// failed write, the two are equal; while a write is in flight, the
    /// received bytes are exactly the echoed bytes plus the pending chunk,
    /// and a failed write loses only that chunk.
    pub open spec fn wf(self) -> bool {
        &&& (self.phase is Reading ==> self.echoed@ == self.received@)
        &&& (self.phase is Writing ==> self.received@ == self.echoed@ + self.pending@)
        &&& (self.phase == Phase::Closed(SessionEnd::CleanClose) ==> self.echoed@
            == self.received@)
        &&& (self.phase == Phase::Closed(SessionEnd::ReadError) ==> self.echoed@
            == self.received@)
        &&& (self.phase == Phase::Closed(SessionEnd::WriteError) ==> self.received@
            == self.echoed@ + self.pending@)
    }

    /// A fresh handler for a newly accepted connection: nothing received,
    /// nothing echoed, ready to read.
    pub fn new() -> (h: Handler)
        ensures
            h.wf(),
            h.phase is Reading,
            h.received@ == Seq::<u8>::empty(),
            h.echoed@ == Seq::<u8>::empty(),
    {
        Handler {
            phase: Phase::Reading,
            received: Ghost(Seq::empty()),
            echoed: Ghost(Seq::empty()),
            pending: Ghost(Seq::empty()),
        }
    }

    /// Whether the handler is ready for the next read outcome.
    pub fn is_reading(&self) -> (r: bool)
        ensures
            r == (self.phase is Reading),
    {
        matches!(self.phase, Phase::Reading)
    }

    /// Whether the handler is waiting for a write result.
    pub fn is_writing(&self) -> (r: bool)
        ensures
            r == (self.phase is Writing),
    {
        matches!(self.phase, Phase::Writing)
    }

    /// How the session ended, once it has.
    pub fn end(&self) -> (r: Option<SessionEnd>)
        ensures
            match self.phase {
                Phase::Closed(kind) => r == Some(kind),
                _ => r is None,
            },
    {
        match self.phase {
            Phase::Closed(kind) => Some(kind),
            _ => None,
        }
    }

    /// Feed the handler one read outcome.
    ///
    /// Zero bytes read is an orderly close, not an error: the session ends
    /// cleanly, with everything received already echoed. Data moves the
    /// handler to the writing state and asks the transport to write those
    /// very bytes back. A read failure ends the session; only this one
    /// connection is affected.
    pub fn on_read(&mut self, outcome: ReadOutcome) -> (step: ReadStep)
        requires
            old(self).phase is Reading,
            old(self).wf(),
        ensures
            final(self).wf(),
            final(self).received@ == old(self).received@ + read_data(outcome),
            final(self).echoed@ == old(self).echoed@,
            outcome is Eof ==> {
                &&& final(self).phase == Phase::Closed(SessionEnd::CleanClose)
                &&& step == ReadStep::Done(SessionEnd::CleanClose)
                &&& final(self).echoed@ == final(self).received@
            },
            outcome is Failed ==> {
                &&& final(self).phase == Phase::Closed(SessionEnd::ReadError)
                &&& step == ReadStep::Done(SessionEnd::ReadError)
            },
            outcome is Data ==> {
                &&& final(self).phase is Writing
                &&& final(self).pending@ == read_data(outcome)
                &&& (step matches ReadStep::Write(w) && w@ == read_data(outcome))
            },
    {
        match outcome {
            ReadOutcome::Eof => {
                self.phase = Phase::Closed(SessionEnd::CleanClose);
                ReadStep::Done(SessionEnd::CleanClose)
            }
            ReadOutcome::Failed => {
                self.phase = Phase::Closed(SessionEnd::ReadError);
                ReadStep::Done(SessionEnd::ReadError)
            }
            ReadOutcome::Data(bytes) => {
                self.received = Ghost(self.received@ + bytes@);
                self.pending = Ghost(bytes@);
                self.phase = Phase::Writing;
                ReadStep::Write(bytes)
            }
        }
    }

    /// Report whether the transport wrote the whole pending chunk.
    ///
    /// On success the chunk counts as echoed and the handler reads again;
    /// on failure the session ends and the failure is reported, again
    /// touching nothing beyond this connection.
    pub fn on_write_result(&mut self, ok: bool) -> (done: Option<SessionEnd>)
        requires
            old(self).phase is Writing,
            old(self).wf(),
        ensures
            final(self).wf(),
            final(self).received@ == old(self).received@,
            ok ==> {
                &&& final(self).phase is Reading
                &&& final(self).echoed@ == old(self).echoed@ + old(self).pending@
                &&& final(self).echoed@ == final(self).received@
                &&& done is None
            },
            !ok ==> {
                &&& final(self).phase == Phase::Closed(SessionEnd::WriteError)
                &&& final(self).echoed@ == old(self).echoed@
                &&& done == Some(SessionEnd::WriteError)
            },
    {
        if ok {
            self.echoed = Ghost(self.echoed@ + self.pending@);
            self.pending = Ghost(Seq::empty());
            self.phase = Phase::Reading;
            None
        } else {
            self.phase = Phase::Closed(SessionEnd::WriteError);
            Some(SessionEnd::WriteError)
        }
    }
}

/// Echo correctness for one connection: a handler that is ready to read,
/// or whose session ended by anything but a failed write, has echoed back
/// exactly the bytes it received, in order.
pub proof fn lemma_handler_echoes_all(h: Handler)
    requires
        h.wf(),
        h.phase is Reading || h.phase == Phase::Closed(SessionEnd::CleanClose) || h.phase
            == Phase::Closed(SessionEnd::ReadError),
    ensures
        h.echoed@ == h.received@,
{
}

/// Connection isolation: each handler's echoed bytes are determined by its
/// own connection's bytes alone. Two handlers, however their sessions
/// interleave in time, each echo exactly what they themselves received —
/// never a mix of the two.
pub proof fn lemma_connection_isolation(a: Handler, b: Handler)
    requires
        a.wf(),
        a.phase is Reading,
        b.wf(),
        b.phase is Reading,
    ensures
        a.echoed@ == a.received@,
        b.echoed@ == b.received@,
{
}

/// A byte-for-byte copy of a chunk, so a scripted session can hand the
/// handler an owned buffer.
fn copy_bytes(src: &Vec<u8>) -> (r: Vec<u8>)
    ensures
        r@ == src@,
{
    let mut r: Vec<u8> = Vec::new();
    let mut j: usize = 0;
    while j < src.len()
        invariant
            j <= src@.len(),
            r@ == src@.take(j as int),
        decreases src@.len() - j,
    {
        r.push(src[j]);
        assert(r@ =~= src@.take(j + 1));
        j = j + 1;
    }
    assert(r@ =~= src@);
    r
}

/// Run one whole session over a scripted transport on which every write
/// succeeds: the peer's reads arrive as `reads`, in order, followed by an
/// orderly close. Returns the bytes written back and how the session
/// ended: exactly the concatenation of the reads, and a clean close with
/// no error — however the same payload was chunked.
pub fn echo_session(reads: &Vec<Vec<u8>>) -> (r: (Vec<u8>, SessionEnd))
    ensures
        r.0@ == concat_chunks(reads@.map_values(|c: Vec<u8>| c@)),
        r.1 == SessionEnd::CleanClose,
{
    let ghost script = reads@.map_values(|c: Vec<u8>| c@);
    let mut h = Handler::new();
    let mut out: Vec<u8> = Vec::new();
    let mut i: usize = 0;
    while i < reads.len()
        invariant
            script == reads@.map_values(|c: Vec<u8>| c@),
            i <= reads@.len(),
            h.wf(),
            h.phase is Reading,
            h.echoed@ == out@,
            out@ == concat_chunks(script.take(i as int)),
        decreases reads@.len() - i,
    {
        let chunk = copy_bytes(&reads[i]);
        let step = h.on_read(ReadOutcome::Data(chunk));
        match step {
            ReadStep::Write(w) => {
                let mut k: usize = 0;
                let ghost out_before = out@;
                while k < w.len()
                    invariant
                        k <= w@.len(),
                        out@ == out_before + w@.take(k as int),
                    decreases w@.len() - k,
                {
                    out.push(w[k]);
                    assert(out@ =~= out_before + w@.take(k + 1));
                    k = k + 1;
                }
                assert(out@ =~= out_before + w@);
                let _ = h.on_write_result(true);
            }
            ReadStep::Done(_) => {
                proof {
                    assert(false);
                }
            }
        }
        proof {
            lemma_concat_take_succ(script, i as int);
        }
        i = i + 1;
    }
    assert(script.take(reads@.len() as int) =~= script);
    let last = h.on_read(ReadOutcome::Eof);
    match last {
        ReadStep::Done(kind) => (out, kind),
        ReadStep::Write(_) => {
            proof {
                assert(false);
            }
            (out, SessionEnd::CleanClose)
        }
    }
}

} // verus!
