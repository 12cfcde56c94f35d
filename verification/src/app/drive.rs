//! How a machine and its driver talk.
//!
//! The driver calls a machine's `step` with what has happened and with what it sees
//! at that moment, carries out the request that it gets, and steps again. It stops
//! when the machine is finished, or when an action of a script ends the transfer.

use vstd::prelude::*;

use crate::app::control::SessionControl;
use crate::app::error::AppError;
use crate::app::intake::{packets_of, payloads_of};
use crate::app::receive::{loaded_of, Act};
use crate::app::script::{one_action, script, Action};
use crate::app::types::AcceptDecision;
use crate::protocol::Packet;
use crate::stream::ResumeCheckpoint;
use crate::transport::TransportError;

verus! {

/// What a driver sees at a step.
#[derive(Debug, Clone, Copy, PartialEq, Eq, Structural)]
pub struct Seen {
    /// The clock that never goes back, in nanoseconds.
    pub now_ns: u64,
    /// The time of day, in milliseconds.
    pub now_ms: u64,
    /// Whether the user has cancelled the session.
    pub cancelled: bool,
    /// What the user has said of an incoming transfer.
    pub decision: AcceptDecision,
    /// What the transport knows of relays.
    pub relayed: Option<bool>,
    /// How many packets wait for the sender's window.
    pub pending: usize,
    /// How many packets of the sender's window are not acknowledged.
    pub in_flight: usize,
    /// Whether the sender's window holds nothing.
    pub window_empty: bool,
    /// What the receiver's window waits for.
    pub next_expected: u32,
}

/// What a driver sees by itself: all but what the user has said to the session.
#[derive(Debug, Clone, Copy, PartialEq, Eq, Structural)]
pub struct Sight {
    /// The clock that never goes back, in nanoseconds.
    pub now_ns: u64,
    /// The time of day, in milliseconds.
    pub now_ms: u64,
    /// What the transport knows of relays.
    pub relayed: Option<bool>,
    /// How many packets wait for the sender's window.
    pub pending: usize,
    /// How many packets of the sender's window are not acknowledged.
    pub in_flight: usize,
    /// Whether the sender's window holds nothing.
    pub window_empty: bool,
    /// What the receiver's window waits for.
    pub next_expected: u32,
}

/// What is seen at a step of a session to which the user has said `control`.
pub open spec fn seen_in(control: SessionControl, sight: Sight) -> Seen {
    Seen {
        now_ns: sight.now_ns,
        now_ms: sight.now_ms,
        cancelled: control.cancelled,
        decision: control.decision,
        relayed: sight.relayed,
        pending: sight.pending,
        in_flight: sight.in_flight,
        window_empty: sight.window_empty,
        next_expected: sight.next_expected,
    }
}

/// What has happened.
pub enum Event {
    /// The request was carried out.
    Done,
    /// A chunk of the file was read. No bytes mean that the file is at its end.
    Read(Vec<u8>),
    /// A packet has come.
    Packet(Packet),
    /// A frame has come that is no packet.
    Garbled(String),
    /// Nothing has come.
    Nothing,
    /// The transport has failed, and is closed or not.
    RecvFailed { closed: bool, error: TransportError },
    /// The sender's window has sent so many packets.
    Sent(usize),
    /// The checkpoint that was found for an offered file, the path of the checkpoint, and
    /// the size of the chunks.
    Prepared {
        loaded: Option<ResumeCheckpoint>,
        path: String,
        chunk_size: usize,
    },
    /// The receiver's window has answered and let through this.
    Windowed { controls: Vec<Packet>, payloads: Vec<Vec<u8>> },
}

/// What has happened, in terms of sequences.
pub enum Happening {
    Done,
    Read(Seq<u8>),
    Packet(Packet<Seq<u8>>),
    Garbled(Seq<char>),
    Nothing,
    RecvFailed { closed: bool, error: TransportError<Seq<char>> },
    Sent(usize),
    Prepared {
        loaded: Option<ResumeCheckpoint<Seq<char>>>,
        path: Seq<char>,
        chunk_size: usize,
    },
    Windowed { controls: Seq<Packet<Seq<u8>>>, payloads: Seq<Seq<u8>> },
}

impl View for Event {
    type V = Happening;

    open spec fn view(&self) -> Happening {
        match self {
            Event::Done => Happening::Done,
            Event::Read(data) => Happening::Read(data@),
            Event::Packet(packet) => Happening::Packet(packet@),
            Event::Garbled(reason) => Happening::Garbled(reason@),
            Event::Nothing => Happening::Nothing,
            Event::RecvFailed { closed, error } => Happening::RecvFailed {
                closed: *closed,
                error: error@,
            },
            Event::Sent(n) => Happening::Sent(*n),
            Event::Prepared { loaded, path, chunk_size } => Happening::Prepared {
                loaded: loaded_of(*loaded),
                path: path@,
                chunk_size: *chunk_size,
            },
            Event::Windowed { controls, payloads } => Happening::Windowed {
                controls: packets_of(controls@),
                payloads: payloads_of(payloads@),
            },
        }
    }
}

/// What a machine asks for.
pub enum Request {
    /// Carry out the actions.
    Perform(Vec<Action>),
    /// Read a chunk of the file.
    Read,
    /// Look for a frame.
    Receive,
    /// Hand a packet to the sender's window.
    Enqueue(Packet),
    /// Hand an answer to the sender's window.
    Control(Packet),
    /// Let the sender's window send again what is due at this time of day, and what it
    /// has room for.
    SendWindow { now_ms: u64 },
    /// Log what the transport has to report.
    Diagnostics,
    /// Sleep for so many milliseconds.
    Sleep(u64),
    /// Find out whether there is a checkpoint for an offered file of this name.
    Prepare { name: String, size: u64 },
    /// Forget what the user has said of an incoming transfer.
    ResetDecision,
    /// Hand a data packet to the receiver's window.
    Window(Packet),
    /// Nothing more.
    Finished,
}

/// What a machine asks for, in terms of sequences.
pub enum Wish {
    Perform(Seq<Act>),
    Read,
    Receive,
    Enqueue(Packet<Seq<u8>>),
    Control(Packet<Seq<u8>>),
    SendWindow { now_ms: u64 },
    Diagnostics,
    Sleep(u64),
    Prepare { name: Seq<char>, size: u64 },
    ResetDecision,
    Window(Packet<Seq<u8>>),
    Finished,
}

impl View for Request {
    type V = Wish;

    open spec fn view(&self) -> Wish {
        match self {
            Request::Perform(actions) => Wish::Perform(script(actions@)),
            Request::Read => Wish::Read,
            Request::Receive => Wish::Receive,
            Request::Enqueue(packet) => Wish::Enqueue(packet@),
            Request::Control(packet) => Wish::Control(packet@),
            Request::SendWindow { now_ms } => Wish::SendWindow { now_ms: *now_ms },
            Request::Diagnostics => Wish::Diagnostics,
            Request::Sleep(ms) => Wish::Sleep(*ms),
            Request::Prepare { name, size } => Wish::Prepare { name: name@, size: *size },
            Request::ResetDecision => Wish::ResetDecision,
            Request::Window(packet) => Wish::Window(packet@),
            Request::Finished => Wish::Finished,
        }
    }
}

/// What a request has the driver carry out.
pub open spec fn performed(wish: Wish) -> Seq<Act> {
    match wish {
        Wish::Perform(actions) => actions,
        _ => Seq::empty(),
    }
}

/// A driver that tells of something it was not asked for has lost its way, and the
/// transfer with it.
pub open spec fn out_of_step() -> Seq<Act> {
    seq![Act::Fail(AppError::Protocol("event out of step"@))]
}

/// Ends a transfer whose driver has lost its way.
pub fn lost_step() -> (actions: Vec<Action>)
    ensures
        script(actions@) == out_of_step(),
{
    one_action(Action::Fail(AppError::Protocol("event out of step".to_string())))
}

/// A step sees what the user has said to its session, and everything else as its driver
/// sees it.
pub proof fn law_steps_see_user_and_driver(control: SessionControl, sight: Sight)
    ensures
        ({
            let seen = seen_in(control, sight);
            &&& seen.cancelled == control.cancelled
            &&& seen.decision == control.decision
            &&& seen.now_ns == sight.now_ns
            &&& seen.now_ms == sight.now_ms
            &&& seen.relayed == sight.relayed
            &&& seen.pending == sight.pending
            &&& seen.in_flight == sight.in_flight
            &&& seen.window_empty == sight.window_empty
            &&& seen.next_expected == sight.next_expected
        }),
{
}

} // verus!
