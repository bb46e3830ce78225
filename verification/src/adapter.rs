//! The duplex stream adapter: a pure, verified state machine that turns a
//! sequence of discrete inbound frames into a continuous byte stream, and
//! byte writes into single outbound frames.
//!
//! The adapter never touches the transport itself. The embedding program
//! polls the inbound channel and the outbound sink, reports what it saw as a
//! [`ChannelEvent`] or [`SinkStatus`], and performs the action the adapter
//! decides on. Ghost logs record every byte that crossed the adapter, so the
//! central law — bytes delivered to the reader, followed by bytes still
//! pending, are exactly the bytes received, in order — is an invariant that
//! every operation is proved to preserve.

use vstd::prelude::*;

verus! {

/// One decoded inbound frame, classified by kind. A text frame carries the
/// bytes of its UTF-8 encoding, a binary frame carries its bytes as they are,
/// and every other kind (ping, pong, close, ...) contributes no stream bytes.
///
/// This is a deliberate choice for close frames too: a close frame folds
/// into a zero-length read, and end-of-stream is reported only when the
/// channel itself ends, which the transport layer drives after the close.
pub enum InboundFrame {
    Text(Vec<u8>),
    Binary(Vec<u8>),
    Control,
}

/// The bytes an inbound frame contributes to the byte stream.
pub open spec fn frame_bytes(f: InboundFrame) -> Seq<u8> {
    match f {
        InboundFrame::Text(b) => b@,
        InboundFrame::Binary(b) => b@,
        InboundFrame::Control => Seq::<u8>::empty(),
    }
}

/// What one poll of the inbound message channel produced.
pub enum ChannelEvent {
    /// A frame arrived.
    Frame(InboundFrame),
    /// The channel ended cleanly; no more frames will ever arrive.
    Closed,
    /// The channel failed; the connection is beyond saving.
    Failed,
    /// Nothing yet; the scheduler will poll again later.
    NotReady,
}

/// The outcome of one read attempt, as the byte-stream consumer sees it.
pub enum ReadOutcome {
    /// Bytes were delivered. A zero-length delivery means "nothing for you in
    /// this frame, try again"; it is *not* end-of-stream.
    Data(Vec<u8>),
    /// Clean end-of-stream: zero bytes now and on every later attempt.
    Eof,
    /// The task should suspend and retry when the channel wakes it.
    WouldBlock,
    /// A transport failure, fatal for this connection.
    Failed,
}

/// Readiness of the outbound message sink, as the embedding program polled it.
pub enum SinkStatus {
    /// The sink can accept a payload (or has finished flushing / closing).
    Ready,
    /// The sink cannot make progress yet; suspend and retry.
    Busy,
    /// The sink failed; the connection is beyond saving.
    Broken,
}

/// A payload to hand to the outbound sink, transmitted as one binary frame.
pub struct OutboundFrame {
    pub payload: Vec<u8>,
}

/// What one write attempt decided.
pub enum WriteStep {
    /// Hand exactly this frame to the sink, then report its full length as
    /// the number of bytes written.
    Submit(OutboundFrame),
    /// The sink is not ready; suspend and retry with the same bytes.
    WouldBlock,
    /// The sink failed.
    Failed,
}

/// The outcome of driving a flush or shutdown poll one step.
pub enum PollOutcome {
    Done,
    WouldBlock,
    Failed,
}

/// How many bytes a read of capacity `cap` takes from `avail` available ones.
pub open spec fn fill_len(cap: int, avail: int) -> int {
    if cap <= avail {
        cap
    } else {
        avail
    }
}

/// The per-connection adapter state. `pending` holds the unconsumed remainder
/// of the most recently received frame — at most one partially consumed frame
/// exists at any time. The ghost logs exist only for specification: they
/// record every byte received from the channel, every byte delivered to the
/// reader, and every payload submitted to the sink.
pub struct StreamAdapter {
    pending: Vec<u8>,
    ended: bool,
    shut: bool,
    received_log: Ghost<Seq<u8>>,
    delivered_log: Ghost<Seq<u8>>,
    submitted_log: Ghost<Seq<Seq<u8>>>,
}

impl StreamAdapter {
    /// The unconsumed remainder of the most recently received frame.
    pub closed spec fn pending_bytes(self) -> Seq<u8> {
        self.pending@
    }

    /// Whether the inbound channel has signalled end-of-stream.
    pub closed spec fn is_ended(self) -> bool {
        self.ended
    }

    /// Whether the write half has completed its shutdown.
    pub closed spec fn is_shut(self) -> bool {
        self.shut
    }

    /// Every stream byte accepted from the channel so far, in arrival order.
    pub closed spec fn received(self) -> Seq<u8> {
        self.received_log@
    }

    /// Every byte handed to the reader so far, in delivery order.
    pub closed spec fn delivered(self) -> Seq<u8> {
        self.delivered_log@
    }

    /// Every payload handed to the sink so far, in submission order.
    pub closed spec fn submitted(self) -> Seq<Seq<u8>> {
        self.submitted_log@
    }

    /// The adapter's invariant: bytes are conserved — delivered, then
    /// pending, is exactly received — and an ended channel left nothing
    /// pending behind.
    pub closed spec fn wf(self) -> bool {
        &&& self.delivered_log@ + self.pending@ == self.received_log@
        &&& self.ended ==> self.pending@.len() == 0
    }

    /// A fresh adapter for one newly accepted connection.
    pub fn new() -> (a: StreamAdapter)
        ensures
            a.wf(),
            a.pending_bytes() == Seq::<u8>::empty(),
            !a.is_ended(),
            !a.is_shut(),
            a.received() == Seq::<u8>::empty(),
            a.delivered() == Seq::<u8>::empty(),
            a.submitted() == Seq::<Seq<u8>>::empty(),
    {
        let a = StreamAdapter {
            pending: Vec::new(),
            ended: false,
            shut: false,
            received_log: Ghost(Seq::empty()),
            delivered_log: Ghost(Seq::empty()),
            submitted_log: Ghost(Seq::empty()),
        };
        proof {
            assert(a.delivered_log@ + a.pending@ =~= a.received_log@);
        }
        a
    }

    /// Move up to `cap` bytes out of the pending buffer, consuming them.
    fn take_pending(&mut self, cap: usize) -> (out: Vec<u8>)
        ensures
            out@ == old(self).pending_bytes().take(
                fill_len(cap as int, old(self).pending_bytes().len() as int),
            ),
            final(self).pending_bytes() == old(self).pending_bytes().skip(
                fill_len(cap as int, old(self).pending_bytes().len() as int),
            ),
            final(self).is_ended() == old(self).is_ended(),
            final(self).is_shut() == old(self).is_shut(),
            final(self).received() == old(self).received(),
            final(self).submitted() == old(self).submitted(),
            final(self).delivered() == old(self).delivered() + out@,
    {
        let n: usize = if cap <= self.pending.len() {
            cap
        } else {
            self.pending.len()
        };
        // split_off leaves the first n bytes behind and returns the rest;
        // the swap keeps the rest pending and hands the first n bytes out.
        let mut taken = self.pending.split_off(n);
        core::mem::swap(&mut self.pending, &mut taken);
        self.delivered_log = Ghost(self.delivered_log@ + taken@);
        taken
    }

    /// Read path, local step: if bytes are pending, or the stream has ended,
    /// a read is answered on the spot — the transport must not be polled.
    /// `None` means nothing is buffered and the channel has not ended, so the
    /// embedding program must poll the channel and come back through
    /// [`Self::read_event`].
    pub fn read_local(&mut self, cap: usize) -> (r: Option<Vec<u8>>)
        requires
            old(self).wf(),
        ensures
            final(self).wf(),
            final(self).is_ended() == old(self).is_ended(),
            final(self).is_shut() == old(self).is_shut(),
            final(self).received() == old(self).received(),
            final(self).submitted() == old(self).submitted(),
            (r is None) <==> (!old(self).is_ended() && old(self).pending_bytes().len() == 0),
            r is None ==> *final(self) == *old(self),
            r matches Some(out) ==> ({
                let n = fill_len(cap as int, old(self).pending_bytes().len() as int);
                &&& out@ == old(self).pending_bytes().take(n)
                &&& final(self).pending_bytes() == old(self).pending_bytes().skip(n)
                &&& final(self).delivered() == old(self).delivered() + out@
            }),
            old(self).is_ended() ==> (r matches Some(out) && out@.len() == 0),
    {
        if self.ended || self.pending.len() > 0 {
            let out = self.take_pending(cap);
            proof {
                assert(self.delivered_log@ + self.pending@ =~= self.received_log@);
            }
            Some(out)
        } else {
            None
        }
    }

    /// Read path, transport step: fold the result of one poll of the inbound
    /// channel into the stream. Only called when nothing was buffered (see
    /// [`Self::read_local`]) and the channel had not already ended.
    ///
    /// A frame's bytes are delivered up to `cap`; any remainder is retained
    /// as the new pending buffer, so no byte is lost or duplicated. A control
    /// frame yields a zero-length delivery — not end-of-stream, not an error —
    /// so the consumer simply retries. End of channel is recorded and is
    /// final; a failure leaves the adapter untouched and is fatal for the
    /// connection.
    pub fn read_event(&mut self, ev: ChannelEvent, cap: usize) -> (r: ReadOutcome)
        requires
            old(self).wf(),
            !old(self).is_ended(),
            old(self).pending_bytes().len() == 0,
        ensures
            final(self).wf(),
            final(self).is_shut() == old(self).is_shut(),
            final(self).submitted() == old(self).submitted(),
            match ev {
                ChannelEvent::Frame(f) => (r matches ReadOutcome::Data(out) && {
                    let data = frame_bytes(f);
                    let n = fill_len(cap as int, data.len() as int);
                    &&& out@ == data.take(n)
                    &&& final(self).pending_bytes() == data.skip(n)
                    &&& final(self).received() == old(self).received() + data
                    &&& final(self).delivered() == old(self).delivered() + data.take(n)
                    &&& !final(self).is_ended()
                }),
                ChannelEvent::Closed => {
                    &&& r is Eof
                    &&& final(self).is_ended()
                    &&& final(self).pending_bytes().len() == 0
                    &&& final(self).received() == old(self).received()
                    &&& final(self).delivered() == old(self).delivered()
                },
                ChannelEvent::Failed => r is Failed && *final(self) == *old(self),
                ChannelEvent::NotReady => r is WouldBlock && *final(self) == *old(self),
            },
    {
        match ev {
            ChannelEvent::Frame(f) => {
                let data: Vec<u8> = match f {
                    InboundFrame::Text(b) => b,
                    InboundFrame::Binary(b) => b,
                    InboundFrame::Control => Vec::new(),
                };
                self.received_log = Ghost(self.received_log@ + data@);
                self.pending = data;
                proof {
                    assert(old(self).delivered_log@ + old(self).pending@
                        =~= old(self).delivered_log@);
                }
                let out = self.take_pending(cap);
                proof {
                    assert(self.delivered_log@ + self.pending@ =~= self.received_log@);
                }
                ReadOutcome::Data(out)
            }
            ChannelEvent::Closed => {
                self.ended = true;
                ReadOutcome::Eof
            }
            ChannelEvent::Failed => ReadOutcome::Failed,
            ChannelEvent::NotReady => ReadOutcome::WouldBlock,
        }
    }

    /// Write path: one attempt to write `data`, given the sink's readiness.
    /// When the sink is ready, the whole slice becomes exactly one frame —
    /// never split, never truncated — and the caller reports the full length
    /// as written only after handing that frame to the sink.
    pub fn attempt_write(&mut self, status: SinkStatus, data: &[u8]) -> (r: WriteStep)
        requires
            !old(self).is_shut(),
        ensures
            final(self).pending_bytes() == old(self).pending_bytes(),
            final(self).is_ended() == old(self).is_ended(),
            final(self).is_shut() == old(self).is_shut(),
            final(self).received() == old(self).received(),
            final(self).delivered() == old(self).delivered(),
            old(self).wf() ==> final(self).wf(),
            match status {
                SinkStatus::Ready => (r matches WriteStep::Submit(frame) && {
                    &&& frame.payload@ == data@
                    &&& final(self).submitted() == old(self).submitted().push(data@)
                }),
                SinkStatus::Busy => r is WouldBlock && *final(self) == *old(self),
                SinkStatus::Broken => r is Failed && *final(self) == *old(self),
            },
    {
        match status {
            SinkStatus::Ready => {
                let payload = vstd::slice::slice_to_vec(data);
                self.submitted_log = Ghost(self.submitted_log@.push(data@));
                WriteStep::Submit(OutboundFrame { payload })
            }
            SinkStatus::Busy => WriteStep::WouldBlock,
            SinkStatus::Broken => WriteStep::Failed,
        }
    }

    /// Flush: the sink's own flush poll decides; the adapter only translates
    /// its readiness into the byte-stream contract's outcome.
    pub fn flush_step(&self, status: SinkStatus) -> (r: PollOutcome)
        ensures
            match status {
                SinkStatus::Ready => r is Done,
                SinkStatus::Busy => r is WouldBlock,
                SinkStatus::Broken => r is Failed,
            },
    {
        match status {
            SinkStatus::Ready => PollOutcome::Done,
            SinkStatus::Busy => PollOutcome::WouldBlock,
            SinkStatus::Broken => PollOutcome::Failed,
        }
    }

    /// Shutdown: drive the sink's close poll one step. Once the close
    /// completes, the write half is shut for good and no further write may be
    /// attempted.
    pub fn shutdown_step(&mut self, status: SinkStatus) -> (r: PollOutcome)
        ensures
            final(self).pending_bytes() == old(self).pending_bytes(),
            final(self).is_ended() == old(self).is_ended(),
            final(self).received() == old(self).received(),
            final(self).delivered() == old(self).delivered(),
            final(self).submitted() == old(self).submitted(),
            old(self).wf() ==> final(self).wf(),
            match status {
                SinkStatus::Ready => r is Done && final(self).is_shut(),
                SinkStatus::Busy => r is WouldBlock && *final(self) == *old(self),
                SinkStatus::Broken => r is Failed && *final(self) == *old(self),
            },
    {
        match status {
            SinkStatus::Ready => {
                self.shut = true;
                PollOutcome::Done
            }
            SinkStatus::Busy => PollOutcome::WouldBlock,
            SinkStatus::Broken => PollOutcome::Failed,
        }
    }

    /// Whether the write half has completed its shutdown; after that, a write
    /// attempt is a caller error and must be rejected before reaching the
    /// adapter.
    pub fn write_shut(&self) -> (b: bool)
        ensures
            b == self.is_shut(),
    {
        self.shut
    }
}

/// The concatenation of the stream bytes of a frame sequence, in order.
pub open spec fn concat_frame_bytes(fs: Seq<InboundFrame>) -> Seq<u8>
    decreases fs.len(),
{
    if fs.len() == 0 {
        Seq::<u8>::empty()
    } else {
        frame_bytes(fs[0]) + concat_frame_bytes(fs.skip(1))
    }
}

/// Law — whole-session reassembly: feeding any sequence of inbound frames
/// through a fresh adapter and reading with any fixed capacity of at least
/// one byte yields exactly the concatenation of the frames' stream bytes, in
/// order, however the frame boundaries and the read chunks fall.
pub fn drain_frames(frames: Vec<InboundFrame>, cap: usize) -> (out: Vec<u8>)
    requires
        cap >= 1,
    ensures
        out@ == concat_frame_bytes(frames@),
{
    let ghost orig: Seq<InboundFrame> = frames@;
    let mut fs = frames;
    let mut a = StreamAdapter::new();
    let mut out: Vec<u8> = Vec::new();
    proof {
        assert(a.received() + concat_frame_bytes(fs@) =~= concat_frame_bytes(orig));
    }
    while fs.len() > 0
        invariant
            cap >= 1,
            a.wf(),
            !a.is_ended(),
            a.pending_bytes().len() == 0,
            out@ == a.delivered(),
            out@ == a.received(),
            a.received() + concat_frame_bytes(fs@) == concat_frame_bytes(orig),
        decreases fs.len(),
    {
        let ghost fs0 = fs@;
        let ghost rcv0 = a.received();
        let f = fs.remove(0);
        proof {
            assert(fs0.remove(0) =~= fs0.skip(1));
            assert(concat_frame_bytes(fs0) == frame_bytes(fs0[0]) + concat_frame_bytes(
                fs0.skip(1),
            ));
        }
        let mut chunk = match a.read_event(ChannelEvent::Frame(f), cap) {
            ReadOutcome::Data(c) => c,
            _ => Vec::new(),
        };
        out.append(&mut chunk);
        loop
            invariant
                cap >= 1,
                a.wf(),
                !a.is_ended(),
                out@ == a.delivered(),
                a.received() == rcv0 + frame_bytes(f),
            ensures
                a.pending_bytes().len() == 0,
                a.wf(),
                !a.is_ended(),
                out@ == a.delivered(),
                a.received() == rcv0 + frame_bytes(f),
            decreases a.pending_bytes().len(),
        {
            let more = a.read_local(cap);
            match more {
                Some(mut c) => {
                    out.append(&mut c);
                }
                None => {
                    break;
                }
            }
        }
        proof {
            assert(a.delivered() + a.pending_bytes() =~= a.delivered());
            assert((rcv0 + frame_bytes(f)) + concat_frame_bytes(fs@) =~= rcv0
                + (frame_bytes(f) + concat_frame_bytes(fs@)));
        }
    }
    proof {
        assert(a.received() + concat_frame_bytes(fs@) =~= a.received());
    }
    out
}

/// Law — no byte loss or duplication: at every reachable state, the bytes
/// delivered to the reader, followed by the bytes still pending, are exactly
/// the bytes received from the channel; in particular what was delivered is
/// always a prefix of what was received, in arrival order, however small the
/// reader's buffers were.
pub proof fn lemma_bytes_conserved(a: StreamAdapter)
    requires
        a.wf(),
    ensures
        a.delivered() + a.pending_bytes() == a.received(),
        a.delivered() == a.received().take(a.delivered().len() as int),
{
    assert(a.delivered() =~= a.received().take(a.delivered().len() as int));
}

/// Law — a drained reader has everything: once nothing is pending, the bytes
/// delivered are exactly the bytes received.
pub proof fn lemma_drained_reader_has_all(a: StreamAdapter)
    requires
        a.wf(),
        a.pending_bytes().len() == 0,
    ensures
        a.delivered() == a.received(),
{
    assert(a.delivered() + a.pending_bytes() =~= a.delivered());
}

/// Law — end-of-stream is terminal: an ended adapter holds no pending bytes
/// and has delivered everything it ever received, so every later read
/// delivers zero bytes and can never turn into an error.
pub proof fn lemma_ended_is_terminal(a: StreamAdapter)
    requires
        a.wf(),
        a.is_ended(),
    ensures
        a.pending_bytes().len() == 0,
        a.delivered() == a.received(),
{
    lemma_drained_reader_has_all(a);
}

} // verus!
