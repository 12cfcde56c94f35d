//! A receiver that listens on the local network, up to the start of a transfer.

use vstd::prelude::*;
use vstd::string::*;

use crate::app::clock::elapsed;
use crate::app::engine::{state_changed, state_told};
use crate::app::error::AppError;
use crate::app::handshake::{
    cancel_listening, carries_code, listen_cancelled, on_accept_error, on_refused,
    verify_sender_auth, AuthStep, Heard, ListenStep, AUTH_WAIT_TIMEOUT_NS,
};
use crate::app::receive::Act;
use crate::app::script::{close_packet, note, script, Action, CLOSE_REASON_PIN_REJECTED};
use crate::app::types::{ConnectionState, LogLevel, TransferDirection};
use crate::protocol::Packet;
use crate::transport::{IoError, TransportError};

verus! {

/// How long the receiver sleeps between two looks for a connection.
pub const ACCEPT_CONNECTION_POLL_MS: u64 = 25;

/// How long the receiver sleeps between two looks for the pairing code.
pub const AUTH_POLL_MS: u64 = 10;

/// Where the receiver stands.
#[derive(Debug, Clone, Copy, PartialEq, Eq, Structural)]
pub enum ListenPhase {
    /// It looks for a connection.
    Listening,
    /// It sleeps, or turns a connection away, and then looks for another.
    Pausing,
    /// It looks for the pairing code.
    Guarding { asked_ns: u64 },
    /// It sleeps until it looks for the pairing code again.
    GuardPausing { asked_ns: u64 },
    /// It tells that a peer is connected.
    Greeting,
    /// The last script is being carried out, or the transfer runs.
    Ending,
}

/// What has happened.
pub enum ListenEvent {
    /// The request was carried out.
    Done,
    /// This peer has connected.
    Connected(String),
    /// No connection was accepted.
    AcceptFailed(IoError),
    /// This came over the connection.
    Heard(Heard),
}

/// What came over a connection, in terms of sequences.
pub enum Utterance {
    Packet(Packet<Seq<u8>>),
    Garbled,
    Nothing,
    Failed(TransportError<Seq<char>>),
}

/// What has happened, in terms of sequences.
pub enum ListenHappening {
    Done,
    Connected(Seq<char>),
    AcceptFailed(IoError<Seq<char>>),
    Heard(Utterance),
}

impl View for Heard {
    type V = Utterance;

    open spec fn view(&self) -> Utterance {
        match self {
            Heard::Packet(packet) => Utterance::Packet(packet@),
            Heard::Garbled => Utterance::Garbled,
            Heard::Nothing => Utterance::Nothing,
            Heard::Failed(error) => Utterance::Failed(error@),
        }
    }
}

impl View for ListenEvent {
    type V = ListenHappening;

    open spec fn view(&self) -> ListenHappening {
        match self {
            ListenEvent::Done => ListenHappening::Done,
            ListenEvent::Connected(peer) => ListenHappening::Connected(peer@),
            ListenEvent::AcceptFailed(error) => ListenHappening::AcceptFailed(error@),
            ListenEvent::Heard(heard) => ListenHappening::Heard(heard@),
        }
    }
}

/// What the receiver asks for.
pub enum ListenRequest {
    /// Look for a connection.
    Accept,
    /// Look for a frame on the connection.
    Receive,
    /// Sleep for so many milliseconds.
    Sleep(u64),
    /// Carry out the actions.
    Perform(Vec<Action>),
    /// Stop announcing this receiver, and run the transfer.
    Serve,
    /// Nothing more.
    Finished,
}

/// What the receiver asks for, in terms of sequences.
pub enum ListenWish {
    Accept,
    Receive,
    Sleep(u64),
    Perform(Seq<Act>),
    Serve,
    Finished,
}

impl View for ListenRequest {
    type V = ListenWish;

    open spec fn view(&self) -> ListenWish {
        match self {
            ListenRequest::Accept => ListenWish::Accept,
            ListenRequest::Receive => ListenWish::Receive,
            ListenRequest::Sleep(ms) => ListenWish::Sleep(*ms),
            ListenRequest::Perform(actions) => ListenWish::Perform(script(actions@)),
            ListenRequest::Serve => ListenWish::Serve,
            ListenRequest::Finished => ListenWish::Finished,
        }
    }
}

/// A receiver that listens, wants a pairing code or not, and may have a peer.
pub struct ListenRun<S = String> {
    pub require_pin: bool,
    pub code: S,
    pub peer: S,
    pub phase: ListenPhase,
}

/// A receiver that listens, its texts taken as sequences.
pub type Listener = ListenRun<Seq<char>>;

impl View for ListenRun {
    type V = Listener;

    open spec fn view(&self) -> Listener {
        ListenRun {
            require_pin: self.require_pin,
            code: self.code@,
            peer: self.peer@,
            phase: self.phase,
        }
    }
}

/// A receiver and what it asks for.
pub type ListenLoopStep = (Listener, ListenWish);

/// A connection is looked for, unless the session is cancelled.
pub open spec fn listens(run: Listener, cancelled: bool) -> ListenLoopStep {
    if cancelled {
        (
            ListenRun { phase: ListenPhase::Ending, ..run },
            ListenWish::Perform(listen_cancelled()),
        )
    } else {
        (ListenRun { phase: ListenPhase::Listening, ..run }, ListenWish::Accept)
    }
}

/// The peer is welcome.
pub open spec fn greets(run: Listener) -> ListenLoopStep {
    (
        ListenRun { phase: ListenPhase::Greeting, ..run },
        ListenWish::Perform(
            seq![
                state_told(
                    TransferDirection::Receive,
                    ConnectionState::Connected,
                    Some(run.peer),
                ),
            ],
        ),
    )
}

/// The pairing code is looked for, unless the session is cancelled.
pub open spec fn guards(run: Listener, asked_ns: u64, cancelled: bool) -> ListenLoopStep {
    if cancelled {
        (
            ListenRun { phase: ListenPhase::Ending, ..run },
            ListenWish::Perform(listen_cancelled()),
        )
    } else {
        (ListenRun { phase: ListenPhase::Guarding { asked_ns }, ..run }, ListenWish::Receive)
    }
}

/// A peer without the pairing code is turned away, and the receiver listens on.
pub open spec fn turns_away(run: Listener) -> ListenLoopStep {
    (
        ListenRun { phase: ListenPhase::Pausing, ..run },
        ListenWish::Perform(
            seq![
                note(
                    LogLevel::Warn,
                    "rejected connection from "@ + run.peer + ": invalid PIN"@,
                ),
                Act::TrySend(close_packet(0, CLOSE_REASON_PIN_REJECTED.spec_bytes())),
                Act::TryClose,
            ],
        ),
    )
}

/// What came while the pairing code was looked for.
pub open spec fn judges(
    run: Listener,
    heard: Utterance,
    asked_ns: u64,
    now_ns: u64,
) -> ListenLoopStep {
    match heard {
        Utterance::Packet(packet) => if carries_code(packet, run.code) {
            greets(run)
        } else {
            turns_away(run)
        },
        Utterance::Garbled => turns_away(run),
        Utterance::Nothing => if elapsed(now_ns, asked_ns) >= AUTH_WAIT_TIMEOUT_NS {
            turns_away(run)
        } else {
            (
                ListenRun { phase: ListenPhase::GuardPausing { asked_ns }, ..run },
                ListenWish::Sleep(AUTH_POLL_MS),
            )
        },
        Utterance::Failed(error) => (
            ListenRun { phase: ListenPhase::Ending, ..run },
            ListenWish::Perform(seq![Act::Fail(AppError::Transport(error))]),
        ),
    }
}

/// One step of the receiver. An event that does not belong to where it stands ends
/// it.
pub open spec fn listen_step(
    run: Listener,
    event: ListenHappening,
    cancelled: bool,
    now_ns: u64,
) -> ListenLoopStep {
    match (run.phase, event) {
        (ListenPhase::Listening, ListenHappening::Done) => listens(run, cancelled),
        (ListenPhase::Listening, ListenHappening::Connected(peer)) => {
            let connected = ListenRun { peer, ..run };
            if run.require_pin {
                guards(connected, now_ns, cancelled)
            } else {
                greets(connected)
            }
        },
        (ListenPhase::Listening, ListenHappening::AcceptFailed(error)) => if error.kind
            is WouldBlock || error.kind is TimedOut {
            (
                ListenRun { phase: ListenPhase::Pausing, ..run },
                ListenWish::Sleep(ACCEPT_CONNECTION_POLL_MS),
            )
        } else {
            (
                ListenRun { phase: ListenPhase::Ending, ..run },
                ListenWish::Perform(seq![Act::Fail(AppError::Io(error))]),
            )
        },
        (ListenPhase::Pausing, ListenHappening::Done) => listens(run, cancelled),
        (ListenPhase::Guarding { asked_ns }, ListenHappening::Heard(heard)) => judges(
            run,
            heard,
            asked_ns,
            now_ns,
        ),
        (ListenPhase::GuardPausing { asked_ns }, ListenHappening::Done) => guards(
            run,
            asked_ns,
            cancelled,
        ),
        (ListenPhase::Greeting, ListenHappening::Done) => (
            ListenRun { phase: ListenPhase::Ending, ..run },
            ListenWish::Serve,
        ),
        _ => (ListenRun { phase: ListenPhase::Ending, ..run }, ListenWish::Finished),
    }
}

impl ListenRun {
    /// A receiver that begins to listen.
    pub fn new(require_pin: bool, code: &str) -> (run: ListenRun)
        ensures
            run@ == (ListenRun {
                require_pin,
                code: code@,
                peer: "unknown"@,
                phase: ListenPhase::Listening,
            }),
    {
        ListenRun {
            require_pin,
            code: code.to_string(),
            peer: "unknown".to_string(),
            phase: ListenPhase::Listening,
        }
    }

    fn listen(&mut self, cancelled: bool) -> (request: ListenRequest)
        ensures
            (final(self)@, request@) == listens(old(self)@, cancelled),
    {
        if cancelled {
            self.phase = ListenPhase::Ending;
            return ListenRequest::Perform(cancel_listening());
        }
        self.phase = ListenPhase::Listening;
        ListenRequest::Accept
    }

    fn greet(&mut self) -> (request: ListenRequest)
        ensures
            (final(self)@, request@) == greets(old(self)@),
    {
        self.phase = ListenPhase::Greeting;
        ListenRequest::Perform(
            crate::app::script::one_action(
                state_changed(
                    TransferDirection::Receive,
                    ConnectionState::Connected,
                    Some(self.peer.as_str()),
                ),
            ),
        )
    }

    fn guard(&mut self, asked_ns: u64, cancelled: bool) -> (request: ListenRequest)
        ensures
            (final(self)@, request@) == guards(old(self)@, asked_ns, cancelled),
    {
        if cancelled {
            self.phase = ListenPhase::Ending;
            return ListenRequest::Perform(cancel_listening());
        }
        self.phase = ListenPhase::Guarding { asked_ns };
        ListenRequest::Receive
    }

    fn judge(&mut self, heard: Heard, asked_ns: u64, now_ns: u64) -> (request: ListenRequest)
        ensures
            (final(self)@, request@) == judges(old(self)@, heard@, asked_ns, now_ns),
    {
        match verify_sender_auth(false, heard, self.code.as_str(), asked_ns, now_ns) {
            AuthStep::Passed => self.greet(),
            AuthStep::Wait => {
                self.phase = ListenPhase::GuardPausing { asked_ns };
                ListenRequest::Sleep(AUTH_POLL_MS)
            },
            AuthStep::Refused(outcome) => match on_refused(outcome, self.peer.as_str()) {
                ListenStep::Listen(actions) => {
                    self.phase = ListenPhase::Pausing;
                    ListenRequest::Perform(actions)
                },
                ListenStep::End(actions) => {
                    self.phase = ListenPhase::Ending;
                    ListenRequest::Perform(actions)
                },
                ListenStep::Wait => {
                    self.phase = ListenPhase::Pausing;
                    ListenRequest::Sleep(ACCEPT_CONNECTION_POLL_MS)
                },
            },
        }
    }

    /// One step of the receiver.
    pub fn step(&mut self, event: ListenEvent, cancelled: bool, now_ns: u64) -> (request:
        ListenRequest)
        ensures
            (final(self)@, request@) == listen_step(old(self)@, event@, cancelled, now_ns),
    {
        match (self.phase, event) {
            (ListenPhase::Listening, ListenEvent::Done) => self.listen(cancelled),
            (ListenPhase::Listening, ListenEvent::Connected(peer)) => {
                self.peer = peer;
                if self.require_pin {
                    self.guard(now_ns, cancelled)
                } else {
                    self.greet()
                }
            },
            (ListenPhase::Listening, ListenEvent::AcceptFailed(error)) => {
                match on_accept_error(error) {
                    ListenStep::End(actions) => {
                        self.phase = ListenPhase::Ending;
                        ListenRequest::Perform(actions)
                    },
                    _ => {
                        self.phase = ListenPhase::Pausing;
                        ListenRequest::Sleep(ACCEPT_CONNECTION_POLL_MS)
                    },
                }
            },
            (ListenPhase::Pausing, ListenEvent::Done) => self.listen(cancelled),
            (ListenPhase::Guarding { asked_ns }, ListenEvent::Heard(heard)) => {
                self.judge(heard, asked_ns, now_ns)
            },
            (ListenPhase::GuardPausing { asked_ns }, ListenEvent::Done) => {
                self.guard(asked_ns, cancelled)
            },
            (ListenPhase::Greeting, ListenEvent::Done) => {
                self.phase = ListenPhase::Ending;
                ListenRequest::Serve
            },
            _ => {
                self.phase = ListenPhase::Ending;
                ListenRequest::Finished
            },
        }
    }
}

/// Nobody without the pairing code is served: a receiver serves only a peer that it has
/// greeted, and one that wants the code greets a peer only after a packet that carries
/// it.
pub proof fn law_only_the_code_opens(
    run: Listener,
    event: ListenHappening,
    cancelled: bool,
    now_ns: u64,
)
    requires
        run.require_pin,
    ensures
        listen_step(run, event, cancelled, now_ns).1 is Serve ==> run.phase is Greeting,
        listen_step(run, event, cancelled, now_ns).0.phase is Greeting ==> run.phase is Guarding
            && (event matches ListenHappening::Heard(Utterance::Packet(packet)) && carries_code(
            packet,
            run.code,
        )),
        listen_step(run, event, cancelled, now_ns).0.require_pin,
        listen_step(run, event, cancelled, now_ns).0.code == run.code,
{
}

} // verus!
