//! TCP framing.
//!
//! A TCP stream keeps no message boundaries, so every frame is preceded by its
//! length: four bytes, big-endian. [`TcpTransport`] holds the state of one
//! connection; [`WriteProgress`] follows one write that the socket may accept
//! in parts.

use std::time::Duration;

use vstd::prelude::*;

use crate::transport::error::{io_failure, write_failure, IoError, IoErrorKind, TransportError};
use crate::wire::{be_bytes, be_value, copy_range, push_be, read_be};

verus! {

/// Length of the prefix that announces a frame.
pub const LENGTH_PREFIX_LEN: usize = 4;

/// The largest frame that a new connection accepts.
pub const DEFAULT_MAX_FRAME_LEN: usize = 67_108_864;

/// How many bytes one read of the socket may return.
pub const READ_CHUNK_LEN: usize = 65_536;

/// Whether an I/O failure only says that the call should be made again.
pub open spec fn retryable(kind: IoErrorKind) -> bool {
    kind == IoErrorKind::WouldBlock || kind == IoErrorKind::Interrupted
}

/// Whether an I/O failure only says that the call should be made again.
pub fn is_retryable_io(error: &IoError) -> (again: bool)
    ensures
        again == retryable(error.kind),
{
    error.kind == IoErrorKind::WouldBlock || error.kind == IoErrorKind::Interrupted
}

/// What to do next while a write is under way.
#[derive(Debug, PartialEq, Eq)]
pub enum WriteStep<S = String> {
    /// Offer the bytes from this offset on to the socket.
    Write { offset: usize },
    /// Wait for the poll interval, and then offer the bytes from this offset on.
    WaitAndWrite { offset: usize },
    /// Every byte was accepted.
    Done,
    /// The write failed.
    Failed(TransportError<S>),
}

impl View for WriteStep<String> {
    type V = WriteStep<Seq<char>>;

    open spec fn view(&self) -> WriteStep<Seq<char>> {
        match *self {
            WriteStep::Write { offset } => WriteStep::Write { offset },
            WriteStep::WaitAndWrite { offset } => WriteStep::WaitAndWrite { offset },
            WriteStep::Done => WriteStep::Done,
            WriteStep::Failed(error) => WriteStep::Failed(error@),
        }
    }
}

/// An outcome with the text of its failure.
pub open spec fn seen<T>(outcome: Result<T, IoError>) -> Result<T, IoError<Seq<char>>> {
    match outcome {
        Ok(value) => Ok(value),
        Err(error) => Err(error@),
    }
}

/// A write of `len` bytes of which the socket has accepted the first `offset`.
#[derive(Debug)]
pub struct WriteProgress {
    pub operation: &'static str,
    pub timeout: Duration,
    pub len: usize,
    pub offset: usize,
}

/// What is left of a write: the next bytes to offer, or nothing.
pub open spec fn next_write(p: WriteProgress) -> WriteStep<Seq<char>> {
    if p.offset < p.len {
        WriteStep::Write { offset: p.offset }
    } else {
        WriteStep::Done
    }
}

/// The write after one call of the socket: it moves on by what was accepted, and
/// stays where it is after a failure.
pub open spec fn after_write(
    p: WriteProgress,
    outcome: Result<usize, IoError<Seq<char>>>,
) -> WriteProgress {
    match outcome {
        Ok(written) => WriteProgress {
            offset: if p.offset + written <= p.len {
                (p.offset + written) as usize
            } else {
                p.len
            },
            ..p
        },
        Err(_) => p,
    }
}

/// What follows one call of the socket's write.
pub open spec fn write_step(
    p: WriteProgress,
    outcome: Result<usize, IoError<Seq<char>>>,
    expired: bool,
) -> WriteStep<Seq<char>> {
    match outcome {
        Ok(written) => if written == 0 {
            WriteStep::Failed(
                TransportError::Io {
                    operation: p.operation,
                    kind: IoErrorKind::WriteZero,
                    message: "socket write returned zero bytes"@,
                },
            )
        } else {
            next_write(after_write(p, outcome))
        },
        Err(error) => if error.kind == IoErrorKind::Interrupted {
            next_write(p)
        } else if error.kind == IoErrorKind::WouldBlock {
            if expired {
                WriteStep::Failed(
                    TransportError::WriteTimedOut { timeout: p.timeout, operation: p.operation },
                )
            } else {
                WriteStep::WaitAndWrite { offset: p.offset }
            }
        } else {
            WriteStep::Failed(write_failure(p.operation, p.timeout, error))
        },
    }
}

/// A write after a number of calls of the socket.
pub open spec fn progress_after(
    p: WriteProgress,
    outcomes: Seq<Result<usize, IoError<Seq<char>>>>,
) -> WriteProgress
    decreases outcomes.len(),
{
    if outcomes.len() == 0 {
        p
    } else {
        after_write(progress_after(p, outcomes.drop_last()), outcomes.last())
    }
}

/// The bytes that the socket has taken over a number of calls, each of which
/// offered what was left of `bytes`.
pub open spec fn accepted(
    bytes: Seq<u8>,
    p: WriteProgress,
    outcomes: Seq<Result<usize, IoError<Seq<char>>>>,
) -> Seq<u8>
    decreases outcomes.len(),
{
    if outcomes.len() == 0 {
        Seq::empty()
    } else {
        accepted(bytes, p, outcomes.drop_last()) + bytes.subrange(
            progress_after(p, outcomes.drop_last()).offset as int,
            progress_after(p, outcomes).offset as int,
        )
    }
}

/// However a write is cut into parts, and whatever calls fail in between, the
/// socket receives the bytes in order, each one once: after any number of calls
/// it has taken exactly those below the offset, and all of them when the write
/// is done.
pub proof fn law_partial_writes_keep_the_stream(
    bytes: Seq<u8>,
    p: WriteProgress,
    outcomes: Seq<Result<usize, IoError<Seq<char>>>>,
)
    requires
        p.len == bytes.len(),
        p.offset == 0,
    ensures
        progress_after(p, outcomes).wf(),
        progress_after(p, outcomes).len == bytes.len(),
        accepted(bytes, p, outcomes) == bytes.take(progress_after(p, outcomes).offset as int),
        next_write(progress_after(p, outcomes)) is Done ==> accepted(bytes, p, outcomes) == bytes,
    decreases outcomes.len(),
{
    if outcomes.len() > 0 {
        law_partial_writes_keep_the_stream(bytes, p, outcomes.drop_last());
        let before = progress_after(p, outcomes.drop_last()).offset as int;
        let after = progress_after(p, outcomes).offset as int;
        assert(bytes.take(before) + bytes.subrange(before, after) =~= bytes.take(after));
    } else {
        assert(accepted(bytes, p, outcomes) =~= bytes.take(0));
    }
    assert(bytes.take(bytes.len() as int) =~= bytes);
}

impl WriteProgress {
    /// No more bytes are accepted than there are.
    pub open spec fn wf(self) -> bool {
        self.offset <= self.len
    }

    /// The start of a write of `len` bytes.
    pub fn new(operation: &'static str, len: usize, timeout: Duration) -> (p: WriteProgress)
        ensures
            p == (WriteProgress { operation, timeout, len, offset: 0 }),
            p.wf(),
    {
        WriteProgress { operation, timeout, len, offset: 0 }
    }

    /// The next thing to do, before any call or after a successful one.
    pub fn next(&self) -> (step: WriteStep)
        ensures
            step@ == next_write(*self),
    {
        if self.offset < self.len {
            WriteStep::Write { offset: self.offset }
        } else {
            WriteStep::Done
        }
    }

    /// Takes what one call of the socket's write returned. `expired` says whether
    /// the deadline of the write has passed.
    pub fn on_write(&mut self, outcome: Result<usize, IoError>, expired: bool) -> (step: WriteStep)
        requires
            old(self).wf(),
        ensures
            final(self).wf(),
            *final(self) == after_write(*old(self), seen(outcome)),
            step@ == write_step(*old(self), seen(outcome), expired),
    {
        match outcome {
            Ok(0) => WriteStep::Failed(
                TransportError::from_io(
                    self.operation,
                    IoError {
                        kind: IoErrorKind::WriteZero,
                        message: "socket write returned zero bytes".to_string(),
                    },
                ),
            ),
            Ok(written) => {
                if written < self.len - self.offset {
                    self.offset = self.offset + written;
                } else {
                    self.offset = self.len;
                }
                self.next()
            },
            Err(error) => {
                if is_retryable_io(&error) {
                    if error.kind == IoErrorKind::Interrupted {
                        self.next()
                    } else if expired {
                        WriteStep::Failed(
                            TransportError::WriteTimedOut {
                                timeout: self.timeout,
                                operation: self.operation,
                            },
                        )
                    } else {
                        WriteStep::WaitAndWrite { offset: self.offset }
                    }
                } else {
                    WriteStep::Failed(
                        TransportError::from_write_io(self.operation, self.timeout, error),
                    )
                }
            },
        }
    }
}

/// One TCP connection: what was read and not yet handed out as a frame, the
/// largest frame it accepts, and whether it is closed.
///
/// A frame can straddle any number of reads, so `read_buf` lives as long as the
/// connection.
#[derive(Debug)]
pub struct TcpTransport {
    pub max_frame_len: usize,
    pub read_buf: Vec<u8>,
    pub closed: bool,
}

/// A connection, its buffer taken as a sequence.
pub struct TcpState {
    pub max_frame_len: usize,
    pub buffered: Seq<u8>,
    pub closed: bool,
}

impl View for TcpTransport {
    type V = TcpState;

    open spec fn view(&self) -> TcpState {
        TcpState {
            max_frame_len: self.max_frame_len,
            buffered: self.read_buf@,
            closed: self.closed,
        }
    }
}

/// What a buffer holds at its front.
pub enum Front {
    /// Not yet a whole frame.
    Partial,
    /// A frame that announces more than the limit.
    TooLarge { len: usize },
    /// A whole frame, and what follows it.
    Frame { frame: Seq<u8>, rest: Seq<u8> },
}

/// A frame on the wire: its length, then its bytes.
pub open spec fn framed(frame: Seq<u8>) -> Seq<u8> {
    be_bytes(frame.len(), 4) + frame
}

/// What the buffer `buffered` holds at its front when frames may be `max` long.
pub open spec fn front(buffered: Seq<u8>, max: nat) -> Front {
    let len = be_value(buffered.take(4));
    if buffered.len() < 4 {
        Front::Partial
    } else if len > max {
        Front::TooLarge { len: len as usize }
    } else if buffered.len() < 4 + len {
        Front::Partial
    } else {
        Front::Frame {
            frame: buffered.subrange(4, 4 + len as int),
            rest: buffered.skip(4 + len as int),
        }
    }
}

/// Every whole frame at the front of the buffer, in order.
pub open spec fn frames_of(buffered: Seq<u8>, max: nat) -> Seq<Seq<u8>>
    decreases buffered.len(),
{
    match front(buffered, max) {
        Front::Frame { frame, rest } => if rest.len() < buffered.len() {
            seq![frame] + frames_of(rest, max)
        } else {
            Seq::empty()
        },
        _ => Seq::empty(),
    }
}

/// What is left of the buffer behind its whole frames.
pub open spec fn rest_of(buffered: Seq<u8>, max: nat) -> Seq<u8>
    decreases buffered.len(),
{
    match front(buffered, max) {
        Front::Frame { rest, .. } => if rest.len() < buffered.len() {
            rest_of(rest, max)
        } else {
            buffered
        },
        _ => buffered,
    }
}

/// A frame that was sent is what the other side takes from the front of its
/// buffer, whatever follows; and until the last of its bytes is there, it takes
/// nothing.
pub proof fn law_frame_round_trip(frame: Seq<u8>, rest: Seq<u8>, max: nat, have: int)
    requires
        frame.len() <= max,
        frame.len() <= u32::MAX,
        0 <= have < framed(frame).len(),
    ensures
        front(framed(frame) + rest, max) == (Front::Frame { frame, rest }),
        front(framed(frame).take(have), max) == Front::Partial,
{
    crate::wire::lemma_be_limits();
    crate::wire::lemma_be_round_trip(frame.len(), 4);
    let buffered = framed(frame) + rest;
    assert(buffered.take(4) =~= be_bytes(frame.len(), 4));
    assert(buffered.subrange(4, 4 + frame.len() as int) =~= frame);
    assert(buffered.skip(4 + frame.len() as int) =~= rest);
    let part = framed(frame).take(have);
    if have >= 4 {
        assert(part.take(4) =~= be_bytes(frame.len(), 4));
    }
}

/// Where the stream is cut between reads does not matter: the frames of a buffer
/// that has grown are the frames it held, and then those of what was left over
/// together with what came.
pub proof fn law_frames_survive_any_segmentation(buffered: Seq<u8>, more: Seq<u8>, max: nat)
    ensures
        frames_of(buffered + more, max) == frames_of(buffered, max) + frames_of(
            rest_of(buffered, max) + more,
            max,
        ),
        rest_of(buffered + more, max) == rest_of(rest_of(buffered, max) + more, max),
    decreases buffered.len(),
{
    let whole = buffered + more;
    if buffered.len() >= 4 {
        assert(whole.take(4) =~= buffered.take(4));
    }
    match front(buffered, max) {
        Front::Frame { frame, rest } => {
            let len = be_value(buffered.take(4)) as int;
            assert(whole.subrange(4, 4 + len) =~= frame);
            assert(whole.skip(4 + len) =~= rest + more);
            law_frames_survive_any_segmentation(rest, more, max);
            assert(frames_of(whole, max) =~= frames_of(buffered, max) + frames_of(
                rest_of(buffered, max) + more,
                max,
            ));
        },
        _ => {
            assert(frames_of(whole, max) =~= Seq::<Seq<u8>>::empty() + frames_of(whole, max));
        },
    }
}

/// The bytes that a list of frames makes on the wire.
pub open spec fn stream_of(frames: Seq<Seq<u8>>) -> Seq<u8>
    decreases frames.len(),
{
    if frames.len() == 0 {
        Seq::empty()
    } else {
        framed(frames[0]) + stream_of(frames.skip(1))
    }
}

/// Frames sent one after the other arrive as those frames, in that order, with
/// nothing left over.
pub proof fn law_frames_arrive_in_order(frames: Seq<Seq<u8>>, max: nat)
    requires
        forall|i: int|
            0 <= i < frames.len() ==> #[trigger] frames[i].len() <= max && frames[i].len()
                <= u32::MAX,
    ensures
        frames_of(stream_of(frames), max) == frames,
        rest_of(stream_of(frames), max) == Seq::<u8>::empty(),
    decreases frames.len(),
{
    if frames.len() > 0 {
        let tail = frames.skip(1);
        law_frames_arrive_in_order(tail, max);
        crate::wire::lemma_be_bytes_len(frames[0].len(), 4);
        law_frame_round_trip(frames[0], stream_of(tail), max, 0);
        assert(seq![frames[0]] + tail =~= frames);
    } else {
        assert(frames_of(stream_of(frames), max) =~= frames);
    }
}

/// The outcome of a receive.
pub open spec fn received(
    state: TcpState,
    fill: Result<(), TransportError<Seq<char>>>,
) -> Result<Option<Seq<u8>>, TransportError<Seq<char>>> {
    match front(state.buffered, state.max_frame_len as nat) {
        Front::TooLarge { len } => Err(
            TransportError::FrameTooLarge { len, max: state.max_frame_len },
        ),
        Front::Frame { frame, .. } => Ok(Some(frame)),
        Front::Partial => match fill {
            Ok(()) => Ok(None),
            Err(error) => Err(error),
        },
    }
}

/// A buffer after one receive: without the frame that it handed out, if any.
pub open spec fn after_take(state: TcpState) -> TcpState {
    match front(state.buffered, state.max_frame_len as nat) {
        Front::Frame { rest, .. } => TcpState { buffered: rest, ..state },
        _ => state,
    }
}

/// The contents of a received result.
pub open spec fn frame_seen(
    r: Result<Option<Vec<u8>>, TransportError>,
) -> Result<Option<Seq<u8>>, TransportError<Seq<char>>> {
    match r {
        Ok(Some(frame)) => Ok(Some(frame@)),
        Ok(None) => Ok(None),
        Err(error) => Err(error@),
    }
}

/// A result with the text of its error.
pub open spec fn plain<T>(r: Result<T, TransportError>) -> Result<T, TransportError<Seq<char>>> {
    match r {
        Ok(value) => Ok(value),
        Err(error) => Err(error@),
    }
}

/// Whether a failed shutdown only says that the connection is already gone.
pub open spec fn already_gone(kind: IoErrorKind) -> bool {
    ||| kind == IoErrorKind::NotConnected
    ||| kind == IoErrorKind::ConnectionReset
    ||| kind == IoErrorKind::ConnectionAborted
    ||| kind == IoErrorKind::BrokenPipe
}

impl TcpTransport {
    /// A connection that has just been made.
    pub fn new() -> (t: TcpTransport)
        ensures
            t@ == (TcpState {
                max_frame_len: DEFAULT_MAX_FRAME_LEN,
                buffered: Seq::empty(),
                closed: false,
            }),
    {
        TcpTransport { max_frame_len: DEFAULT_MAX_FRAME_LEN, read_buf: Vec::new(), closed: false }
    }

    /// The error of a connection attempt that failed at every address. `last` is
    /// the failure at the last address, if there was an address at all.
    pub fn connect_error(last: Option<IoError>) -> (error: TransportError)
        ensures
            error@ == (match last {
                Some(failure) => io_failure("connect", failure@),
                None => TransportError::Io {
                    operation: "connect",
                    kind: IoErrorKind::InvalidInput,
                    message: "no socket addresses to connect to"@,
                },
            }),
    {
        match last {
            Some(failure) => TransportError::from_io("connect", failure),
            None => TransportError::from_io(
                "connect",
                IoError {
                    kind: IoErrorKind::InvalidInput,
                    message: "no socket addresses to connect to".to_string(),
                },
            ),
        }
    }

    /// The largest frame that the connection accepts.
    pub fn max_frame_len(&self) -> (max: usize)
        ensures
            max == self@.max_frame_len,
    {
        self.max_frame_len
    }

    /// Sets the largest frame that the connection accepts.
    pub fn set_max_frame_len(&mut self, max_frame_len: usize)
        ensures
            final(self)@ == (TcpState { max_frame_len, ..old(self)@ }),
    {
        self.max_frame_len = max_frame_len;
    }

    /// Whether the connection is closed.
    pub fn is_closed(&self) -> (closed: bool)
        ensures
            closed == self@.closed,
    {
        self.closed
    }

    /// Takes what one read of the socket returned: at most [`READ_CHUNK_LEN`]
    /// bytes, none of them at the end of the stream. Answers `None` while the
    /// socket should be read again, and else how the reading ended.
    pub fn fill_from_socket(&mut self, outcome: Result<Vec<u8>, IoError>) -> (ended: Option<
        Result<(), TransportError>,
    >)
        ensures
            final(self)@.max_frame_len == old(self)@.max_frame_len,
            final(self)@.buffered == old(self)@.buffered + (match outcome {
                Ok(bytes) => bytes@,
                Err(_) => Seq::<u8>::empty(),
            }),
            final(self)@.closed <==> old(self)@.closed || ended matches Some(Err(_)),
            match outcome {
                Ok(bytes) => if bytes@.len() == 0 {
                    &&& final(self)@ == (TcpState { closed: true, ..old(self)@ })
                    &&& ended matches Some(Err(error))
                    &&& error@ == (TransportError::<Seq<char>>::CleanEof { operation: "read" })
                } else {
                    &&& final(self)@ == (TcpState {
                        buffered: old(self)@.buffered + bytes@,
                        ..old(self)@
                    })
                    &&& if bytes@.len() < READ_CHUNK_LEN {
                        ended matches Some(Ok(_))
                    } else {
                        ended is None
                    }
                },
                Err(failure) => match failure.kind {
                    IoErrorKind::Interrupted => {
                        &&& final(self)@ == old(self)@
                        &&& ended is None
                    },
                    IoErrorKind::WouldBlock => {
                        &&& final(self)@ == old(self)@
                        &&& ended matches Some(Ok(_))
                    },
                    _ => {
                        &&& final(self)@ == (TcpState { closed: true, ..old(self)@ })
                        &&& ended matches Some(Err(error))
                        &&& error@ == io_failure("read", failure@)
                    },
                },
            },
    {
        assert(self.read_buf@ + Seq::<u8>::empty() =~= self.read_buf@);
        match outcome {
            Ok(bytes) => {
                if bytes.len() == 0 {
                    assert(self.read_buf@ + bytes@ =~= self.read_buf@);
                    self.closed = true;
                    return Some(Err(TransportError::CleanEof { operation: "read" }));
                }
                crate::wire::push_all(&mut self.read_buf, bytes.as_slice());
                if bytes.len() < READ_CHUNK_LEN {
                    Some(Ok(()))
                } else {
                    None
                }
            },
            Err(failure) => {
                if is_retryable_io(&failure) {
                    if failure.kind == IoErrorKind::Interrupted {
                        None
                    } else {
                        Some(Ok(()))
                    }
                } else {
                    self.closed = true;
                    Some(Err(TransportError::from_io("read", failure)))
                }
            },
        }
    }

    /// Takes one whole frame from the front of the buffer, if it is all there.
    pub fn take_buffered_frame(&mut self) -> (taken: Result<Option<Vec<u8>>, TransportError>)
        ensures
            final(self)@ == after_take(old(self)@),
            frame_seen(taken) == received(old(self)@, Ok(())),
    {
        let available: usize = self.read_buf.len();
        if available < LENGTH_PREFIX_LEN {
            return Ok(None);
        }
        assert(self.read_buf@.subrange(0, 4) =~= self.read_buf@.take(4));
        let frame_len: usize = read_be(self.read_buf.as_slice(), 0, LENGTH_PREFIX_LEN) as usize;
        if frame_len > self.max_frame_len {
            return Err(
                TransportError::FrameTooLarge { len: frame_len, max: self.max_frame_len },
            );
        }
        if available - LENGTH_PREFIX_LEN < frame_len {
            return Ok(None);
        }
        let end: usize = LENGTH_PREFIX_LEN + frame_len;
        let frame: Vec<u8> = copy_range(self.read_buf.as_slice(), LENGTH_PREFIX_LEN, end);
        let rest: Vec<u8> = copy_range(self.read_buf.as_slice(), end, available);
        assert(rest@ =~= self.read_buf@.skip(end as int));
        self.read_buf = rest;
        Ok(Some(frame))
    }

    /// Ends a receive on an open connection, with how the reading of the socket
    /// ended. A whole frame is handed out even if the reading failed: the last
    /// frame can arrive together with the end of the stream.
    pub fn recv(&mut self, fill: Result<(), TransportError>) -> (taken: Result<
        Option<Vec<u8>>,
        TransportError,
    >)
        ensures
            final(self)@ == after_take(old(self)@),
            frame_seen(taken) == received(old(self)@, plain(fill)),
    {
        match self.take_buffered_frame() {
            Err(error) => Err(error),
            Ok(Some(frame)) => Ok(Some(frame)),
            Ok(None) => match fill {
                Ok(()) => Ok(None),
                Err(error) => Err(error),
            },
        }
    }

    /// The prefix to write before `bytes`, or why the frame cannot be sent.
    pub fn send(&self, bytes: &[u8]) -> (prefix: Result<Vec<u8>, TransportError>)
        ensures
            prefix is Ok <==> !self@.closed && bytes@.len() <= self@.max_frame_len && bytes@.len()
                <= u32::MAX,
            match prefix {
                Ok(p) => {
                    &&& !self@.closed
                    &&& bytes@.len() <= self@.max_frame_len
                    &&& bytes@.len() <= u32::MAX
                    &&& p@ + bytes@ == framed(bytes@)
                },
                Err(error) => if self@.closed {
                    error@ == TransportError::<Seq<char>>::Closed
                } else {
                    &&& bytes@.len() > self@.max_frame_len || bytes@.len() > u32::MAX
                    &&& error@ == (TransportError::<Seq<char>>::FrameTooLarge {
                        len: bytes@.len() as usize,
                        max: if self@.max_frame_len <= u32::MAX {
                            self@.max_frame_len
                        } else {
                            u32::MAX as usize
                        },
                    })
                },
            },
    {
        if self.closed {
            return Err(TransportError::Closed);
        }
        if bytes.len() > self.max_frame_len || bytes.len() > u32::MAX as usize {
            let max: usize = if self.max_frame_len <= u32::MAX as usize {
                self.max_frame_len
            } else {
                u32::MAX as usize
            };
            return Err(TransportError::FrameTooLarge { len: bytes.len(), max });
        }
        let mut prefix: Vec<u8> = Vec::new();
        push_be(&mut prefix, bytes.len() as u64, LENGTH_PREFIX_LEN);
        assert(prefix@ =~= be_bytes(bytes@.len(), 4));
        Ok(prefix)
    }

    /// Takes how one part of a frame was written. Any failure leaves the stream
    /// without a boundary, so the connection is closed for good.
    pub fn write_part(&mut self, written: Result<(), TransportError>) -> (r: Result<
        (),
        TransportError,
    >)
        ensures
            r == written,
            final(self)@ == (TcpState {
                closed: old(self)@.closed || written is Err,
                ..old(self)@
            }),
    {
        if written.is_err() {
            self.closed = true;
        }
        written
    }

    /// Closes the connection. `shutdown` is how shutting the socket down went; a
    /// connection that is already gone is no error.
    pub fn close(&mut self, shutdown: Result<(), IoError>) -> (r: Result<(), TransportError>)
        ensures
            final(self)@ == (TcpState { closed: true, ..old(self)@ }),
            match shutdown {
                Ok(()) => r is Ok,
                Err(failure) => if already_gone(failure.kind) {
                    r is Ok
                } else {
                    &&& r matches Err(error)
                    &&& error@ == io_failure("shutdown", failure@)
                },
            },
    {
        self.closed = true;
        match shutdown {
            Ok(()) => Ok(()),
            Err(failure) => match failure.kind {
                IoErrorKind::NotConnected
                | IoErrorKind::ConnectionReset
                | IoErrorKind::ConnectionAborted
                | IoErrorKind::BrokenPipe => Ok(()),
                _ => Err(TransportError::from_io("shutdown", failure)),
            },
        }
    }
}

/// What follows a call of the socket's write: bytes that it took are not offered again, no
/// bytes are a failure, an interrupted call is made again at once, one that would block is
/// made again after a wait until the deadline has passed, and any other failure ends the
/// write.
pub proof fn law_write_goes_on_where_it_stopped(
    p: WriteProgress,
    outcome: Result<usize, IoError<Seq<char>>>,
    expired: bool,
)
    requires
        p.wf(),
    ensures
        ({
            let step = write_step(p, outcome, expired);
            let after = after_write(p, outcome);
            &&& after.len == p.len && after.operation == p.operation && after.timeout == p.timeout
            &&& outcome matches Ok(written) ==> {
                &&& written == 0 ==> step is Failed && after.offset == p.offset
                &&& 0 < written < p.len - p.offset ==> step == (WriteStep::<Seq<char>>::Write {
                    offset: (p.offset + written) as usize,
                }) && after.offset == p.offset + written
                &&& written > 0 && written >= p.len - p.offset ==> step is Done && after.offset
                    == p.len
            }
            &&& outcome matches Err(error) ==> {
                &&& after.offset == p.offset
                &&& error.kind is Interrupted && p.offset < p.len ==> step == (WriteStep::<
                    Seq<char>,
                >::Write { offset: p.offset })
                &&& error.kind is WouldBlock && !expired ==> step == (WriteStep::<
                    Seq<char>,
                >::WaitAndWrite { offset: p.offset })
                &&& error.kind is WouldBlock && expired ==> step == WriteStep::Failed(
                    TransportError::<Seq<char>>::WriteTimedOut {
                        timeout: p.timeout,
                        operation: p.operation,
                    },
                )
                &&& error.kind !is Interrupted && error.kind !is WouldBlock ==> step is Failed
            }
        }),
{
}

/// A receive gives the frame at the front of the buffer as soon as all of it is there, and
/// only then: its length is the number in the four bytes before it. One that announces
/// more than the limit is refused, and the buffer then stays as it is. Where no frame is
/// there yet, nothing is taken and the end of the reading is told.
pub proof fn law_frame_is_taken_when_it_is_there(
    state: TcpState,
    fill: Result<(), TransportError<Seq<char>>>,
)
    ensures
        ({
            let bytes = state.buffered;
            let announced = bytes[0] * 16_777_216 + bytes[1] * 65_536 + bytes[2] * 256 + bytes[3];
            let taken = received(state, fill);
            let after = after_take(state);
            let there = bytes.len() >= 4 && announced <= state.max_frame_len && bytes.len() >= 4
                + announced;
            let refused = bytes.len() >= 4 && announced > state.max_frame_len;
            &&& there ==> {
                &&& taken == Ok::<Option<Seq<u8>>, TransportError<Seq<char>>>(
                    Some(bytes.subrange(4, 4 + announced)),
                )
                &&& after.buffered == bytes.skip(4 + announced)
            }
            &&& refused ==> {
                &&& taken matches Err(TransportError::FrameTooLarge { len, max }) && len
                    == announced as usize && max == state.max_frame_len
                &&& after == state
            }
            &&& !there && !refused ==> {
                &&& after == state
                &&& fill is Ok ==> taken == Ok::<Option<Seq<u8>>, TransportError<Seq<char>>>(None)
                &&& fill matches Err(error) ==> taken == Err::<
                    Option<Seq<u8>>,
                    TransportError<Seq<char>>,
                >(error)
            }
            &&& after.max_frame_len == state.max_frame_len && after.closed == state.closed
        }),
{
    let bytes = state.buffered;
    if bytes.len() >= 4 {
        let front = bytes.take(4);
        reveal_with_fuel(be_value, 5);
        assert(front.drop_last().drop_last().drop_last().drop_last() =~= Seq::<u8>::empty());
        assert(front.last() == bytes[3]);
        assert(front.drop_last().last() == bytes[2]);
        assert(front.drop_last().drop_last().last() == bytes[1]);
        assert(front.drop_last().drop_last().drop_last().last() == bytes[0]);
    }
}

/// Only these failures of a call mean that it should be made again, and only these of a
/// shutdown mean that the connection is already gone.
pub proof fn law_kinds_of_failure(kind: IoErrorKind)
    ensures
        retryable(kind) <==> kind is WouldBlock || kind is Interrupted,
        already_gone(kind) <==> kind is NotConnected || kind is ConnectionReset
            || kind is ConnectionAborted || kind is BrokenPipe,
{
}

/// A frame is announced in four bytes, a new connection accepts frames of up to sixty-four
/// mebibytes, and a read returns at most sixty-four kibibytes.
pub proof fn law_limits_of_a_connection()
    ensures
        LENGTH_PREFIX_LEN == 4,
        DEFAULT_MAX_FRAME_LEN == 64 * 1024 * 1024,
        READ_CHUNK_LEN == 64 * 1024,
{
}

} // verus!
