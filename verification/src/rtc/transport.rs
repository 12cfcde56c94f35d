//! A transport over a WebRTC data channel.
//!
//! The channel itself, the signaling and the background task stand outside. Here is
//! what to do while a connection is made, what a frame is answered with, and how the
//! background task hands frames to the channel.

use std::time::Duration;

use vstd::prelude::*;
use vstd::string::*;

use crate::rtc::error::RtcError;
use crate::signaling::IceServer;
use crate::transport::TransportError;

verus! {

/// How many packets wait for the channel at most.
pub const OUTBOUND_QUEUE_PACKETS: usize = 64;

/// From how many buffered bytes on no frame is handed to the channel.
pub const BUFFERED_HIGH_WATERMARK: usize = 1_048_576;

/// To how many buffered bytes the channel must come down first.
pub const BUFFERED_LOW_WATERMARK: usize = 262_144;

/// How often a closing channel is looked at before it is closed anyway.
pub const DRAIN_POLLS: u32 = 500;

/// How a connection is to be made.
pub struct ConnectRequest {
    pub relay_url: String,
    pub session_id: String,
    pub my_peer_id: String,
    pub ice_servers: Vec<IceServer>,
    pub connect_timeout: Duration,
    pub is_offerer: bool,
    pub force_relay: bool,
    pub cancellable: bool,
}

impl ConnectRequest {
    /// Whether the connection is made with these peers, servers and limits.
    pub open spec fn is(
        self,
        relay_url: Seq<char>,
        session_id: Seq<char>,
        my_peer_id: Seq<char>,
        ice_servers: Seq<IceServer>,
        connect_timeout: Duration,
    ) -> bool {
        &&& self.relay_url@ == relay_url
        &&& self.session_id@ == session_id
        &&& self.my_peer_id@ == my_peer_id
        &&& self.ice_servers@ == ice_servers
        &&& self.connect_timeout == connect_timeout
    }
}

/// What came of the background task while a connection was waited for.
pub enum ConnectEvent {
    /// The channel is open.
    Connected,
    /// The connection has failed.
    Failed(RtcError),
    /// Nothing yet.
    Nothing,
    /// The background task is gone.
    Gone,
}

/// What to do while a connection is waited for.
pub enum ConnectStep {
    /// The transport is ready.
    Ready(RtcTransport),
    /// Wait on.
    Wait,
    /// Leave the background task to itself and fail.
    Abandon(RtcError),
    /// Wait for the end of the background task and fail.
    Fail(RtcError),
    /// Fail: there is no background task any more.
    Lost(RtcError),
}

/// What came from the channel.
pub enum ChannelEvent {
    /// A frame.
    Frame(Vec<u8>),
    /// Nothing.
    Nothing,
    /// The channel is gone.
    Gone,
}

/// A transport over a data channel.
pub struct RtcTransport {
    pub closed: bool,
}

/// Why a frame cannot be sent or received now, if it cannot. A transport that was
/// closed is closed, even if its path is also dead.
pub open spec fn channel_fault(closed: bool, dead_pair: bool) -> Option<TransportError<Seq<char>>> {
    if closed {
        Some(TransportError::Closed)
    } else if dead_pair {
        Some(TransportError::DeadPath)
    } else {
        None
    }
}

impl RtcTransport {
    /// A connection that this peer offers.
    pub fn connect_as_offerer(
        relay_url: &str,
        session_id: &str,
        my_peer_id: &str,
        ice_servers: Vec<IceServer>,
        connect_timeout: Duration,
    ) -> (request: ConnectRequest)
        ensures
            request.is(relay_url@, session_id@, my_peer_id@, ice_servers@, connect_timeout),
            request.is_offerer,
            !request.force_relay,
            !request.cancellable,
    {
        Self::connect(
            relay_url,
            session_id,
            my_peer_id,
            ice_servers,
            connect_timeout,
            true,
            false,
            false,
        )
    }

    /// A connection that this peer answers.
    pub fn connect_as_answerer(
        relay_url: &str,
        session_id: &str,
        my_peer_id: &str,
        ice_servers: Vec<IceServer>,
        connect_timeout: Duration,
    ) -> (request: ConnectRequest)
        ensures
            request.is(relay_url@, session_id@, my_peer_id@, ice_servers@, connect_timeout),
            !request.is_offerer,
            !request.force_relay,
            !request.cancellable,
    {
        Self::connect(
            relay_url,
            session_id,
            my_peer_id,
            ice_servers,
            connect_timeout,
            false,
            false,
            false,
        )
    }

    /// A connection that this peer offers and that can be cancelled while it is made.
    pub fn connect_as_offerer_cancellable(
        relay_url: &str,
        session_id: &str,
        my_peer_id: &str,
        ice_servers: Vec<IceServer>,
        connect_timeout: Duration,
        force_relay: bool,
    ) -> (request: ConnectRequest)
        ensures
            request.is(relay_url@, session_id@, my_peer_id@, ice_servers@, connect_timeout),
            request.is_offerer,
            request.force_relay == force_relay,
            request.cancellable,
    {
        Self::connect(
            relay_url,
            session_id,
            my_peer_id,
            ice_servers,
            connect_timeout,
            true,
            force_relay,
            true,
        )
    }

    /// A connection that this peer answers and that can be cancelled while it is made.
    pub fn connect_as_answerer_cancellable(
        relay_url: &str,
        session_id: &str,
        my_peer_id: &str,
        ice_servers: Vec<IceServer>,
        connect_timeout: Duration,
        force_relay: bool,
    ) -> (request: ConnectRequest)
        ensures
            request.is(relay_url@, session_id@, my_peer_id@, ice_servers@, connect_timeout),
            !request.is_offerer,
            request.force_relay == force_relay,
            request.cancellable,
    {
        Self::connect(
            relay_url,
            session_id,
            my_peer_id,
            ice_servers,
            connect_timeout,
            false,
            force_relay,
            true,
        )
    }

    fn connect(
        relay_url: &str,
        session_id: &str,
        my_peer_id: &str,
        ice_servers: Vec<IceServer>,
        connect_timeout: Duration,
        is_offerer: bool,
        force_relay: bool,
        cancellable: bool,
    ) -> (request: ConnectRequest)
        ensures
            request.is(relay_url@, session_id@, my_peer_id@, ice_servers@, connect_timeout),
            request.is_offerer == is_offerer,
            request.force_relay == force_relay,
            request.cancellable == cancellable,
    {
        ConnectRequest {
            relay_url: relay_url.to_string(),
            session_id: session_id.to_string(),
            my_peer_id: my_peer_id.to_string(),
            ice_servers,
            connect_timeout,
            is_offerer,
            force_relay,
            cancellable,
        }
    }

    /// What to do next while a connection is waited for. `offer_exchanged` says
    /// whether both peers were there: only then is it the path that did not come up.
    pub fn on_connect_event(
        event: ConnectEvent,
        cancelled: bool,
        deadline_passed: bool,
        offer_exchanged: bool,
    ) -> (step: ConnectStep)
        ensures
            step is Ready <==> event is Connected,
            step is Wait <==> event is Nothing && !cancelled && !deadline_passed,
            step is Abandon <==> event is Nothing && (cancelled || deadline_passed),
            match event {
                ConnectEvent::Connected => step matches ConnectStep::Ready(transport)
                    && !transport.closed,
                ConnectEvent::Failed(error) => step matches ConnectStep::Fail(e) && e@ == error@,
                ConnectEvent::Gone => step matches ConnectStep::Lost(e) && e@
                    == RtcError::PeerConnection(
                    "rtc background thread exited before producing a connection"@,
                ),
                ConnectEvent::Nothing => if cancelled {
                    step matches ConnectStep::Abandon(RtcError::Cancelled)
                } else if !deadline_passed {
                    step is Wait
                } else if offer_exchanged {
                    step matches ConnectStep::Abandon(RtcError::Timeout)
                } else {
                    step matches ConnectStep::Abandon(RtcError::PeerNeverArrived)
                },
            },
    {
        match event {
            ConnectEvent::Connected => ConnectStep::Ready(RtcTransport { closed: false }),
            ConnectEvent::Failed(error) => ConnectStep::Fail(error),
            ConnectEvent::Gone => ConnectStep::Lost(
                RtcError::PeerConnection(
                    "rtc background thread exited before producing a connection".to_string(),
                ),
            ),
            ConnectEvent::Nothing => {
                if cancelled {
                    ConnectStep::Abandon(RtcError::Cancelled)
                } else if !deadline_passed {
                    ConnectStep::Wait
                } else if offer_exchanged {
                    ConnectStep::Abandon(RtcError::Timeout)
                } else {
                    ConnectStep::Abandon(RtcError::PeerNeverArrived)
                }
            },
        }
    }

    /// Whether a frame can be sent or received now.
    pub fn check(&self, dead_pair: bool) -> (r: Result<(), TransportError>)
        ensures
            match r {
                Ok(_) => channel_fault(self.closed, dead_pair) is None,
                Err(error) => channel_fault(self.closed, dead_pair) == Some(error@),
            },
    {
        if self.closed {
            return Err(TransportError::Closed);
        }
        if dead_pair {
            return Err(TransportError::DeadPath);
        }
        Ok(())
    }

    /// Sends a frame: `taken` says whether the background task took it, which takes none
    /// any more if it is gone. A transport that is closed, or whose path is dead, sends
    /// none.
    pub fn send(&self, dead_pair: bool, taken: bool) -> (r: Result<(), TransportError>)
        ensures
            r is Ok <==> !self.closed && !dead_pair && taken,
            match r {
                Ok(_) => channel_fault(self.closed, dead_pair) is None && taken,
                Err(error) => match channel_fault(self.closed, dead_pair) {
                    Some(fault) => error@ == fault,
                    None => !taken && error@ == TransportError::<Seq<char>>::Closed,
                },
            },
    {
        match self.check(dead_pair) {
            Err(error) => return Err(error),
            Ok(()) => {},
        }
        if taken {
            Ok(())
        } else {
            Err(TransportError::Closed)
        }
    }

    /// Takes what came from the channel. A channel that is gone closes the transport. A
    /// transport that is closed, or whose path is dead, takes nothing.
    pub fn recv(&mut self, dead_pair: bool, event: ChannelEvent) -> (r: Result<
        Option<Vec<u8>>,
        TransportError,
    >)
        ensures
            final(self).closed <==> old(self).closed || (!dead_pair && event is Gone),
            r is Ok <==> !old(self).closed && !dead_pair && event !is Gone,
            match channel_fault(old(self).closed, dead_pair) {
                Some(fault) => {
                    &&& *final(self) == *old(self)
                    &&& r matches Err(error) && error@ == fault
                },
                None => {
                    &&& final(self).closed == (event is Gone)
                    &&& match event {
                        ChannelEvent::Frame(bytes) => r matches Ok(Some(frame)) && frame@ == bytes@,
                        ChannelEvent::Nothing => r matches Ok(None),
                        ChannelEvent::Gone => r matches Err(error) && error@ == TransportError::<
                            Seq<char>,
                        >::Closed,
                    }
                },
            },
    {
        match self.check(dead_pair) {
            Err(error) => return Err(error),
            Ok(()) => {},
        }
        match event {
            ChannelEvent::Frame(bytes) => Ok(Some(bytes)),
            ChannelEvent::Nothing => Ok(None),
            ChannelEvent::Gone => {
                self.closed = true;
                Err(TransportError::Closed)
            },
        }
    }

    /// Closes the transport.
    pub fn close(&mut self)
        ensures
            final(self).closed,
    {
        self.closed = true;
    }

    /// Whether the transport is closed.
    pub fn is_closed(&self) -> (closed: bool)
        ensures
            closed == self.closed,
    {
        self.closed
    }
}

/// Where the background task stands.
#[derive(Debug, Clone, Copy, PartialEq, Eq, Structural)]
pub enum PumpState {
    /// It waits for a frame.
    Idle,
    /// It holds a frame back until the channel has come down.
    Holding,
    /// It hands a frame to the channel. `last` says that the transport was closed
    /// meanwhile.
    Sending { last: bool },
    /// It hands over what is still queued.
    Flushing,
    /// It waits until the channel has nothing buffered, for so many more polls.
    Draining { polls: u32 },
    /// It is done.
    Closed,
}

/// What the background task sees.
pub enum PumpEvent {
    /// A frame is queued, and the channel has so many bytes buffered.
    Frame { buffered: usize },
    /// Nothing is queued any more.
    QueueEmpty,
    /// The queue is closed.
    QueueClosed,
    /// The transport was closed.
    Shutdown,
    /// The channel has so many bytes buffered.
    Buffered(usize),
    /// The channel has taken the frame.
    Sent,
    /// The channel has not taken the frame.
    SendFailed(String),
}

/// What the background task does.
pub enum PumpAction {
    /// Wait for the next frame, or for the transport to be closed.
    Await,
    /// Sleep for five milliseconds, or until the transport is closed, and look at the
    /// channel.
    Sleep,
    /// Hand the frame to the channel.
    Send,
    /// Take the next frame from the queue, if there is one, without waiting.
    TakeQueued,
    /// Look at the channel.
    Look,
    /// Sleep for ten milliseconds and look at the channel.
    SleepAndLook,
    /// Close the connection.
    Close,
    /// Sleep for ten milliseconds and close the connection.
    SleepAndClose,
}

/// Where the background task stands after an event. An event that does not belong to
/// where it stands changes nothing.
pub open spec fn pump_next(state: PumpState, event: PumpEvent) -> PumpState {
    match (state, event) {
        (PumpState::Idle, PumpEvent::Frame { buffered }) => if buffered
            >= BUFFERED_HIGH_WATERMARK {
            PumpState::Holding
        } else {
            PumpState::Sending { last: false }
        },
        (PumpState::Idle, PumpEvent::QueueClosed) => PumpState::Flushing,
        (PumpState::Idle, PumpEvent::Shutdown) => PumpState::Flushing,
        (PumpState::Holding, PumpEvent::Buffered(n)) => if n > BUFFERED_LOW_WATERMARK {
            PumpState::Holding
        } else {
            PumpState::Sending { last: false }
        },
        (PumpState::Holding, PumpEvent::Shutdown) => PumpState::Sending { last: true },
        (PumpState::Sending { last }, PumpEvent::Sent) => if last {
            PumpState::Flushing
        } else {
            PumpState::Idle
        },
        (PumpState::Sending { .. }, PumpEvent::SendFailed(_)) => PumpState::Flushing,
        (PumpState::Flushing, PumpEvent::QueueEmpty) => PumpState::Draining { polls: DRAIN_POLLS },
        (PumpState::Flushing, PumpEvent::QueueClosed) => PumpState::Draining {
            polls: DRAIN_POLLS,
        },
        (PumpState::Flushing, PumpEvent::SendFailed(_)) => PumpState::Draining {
            polls: DRAIN_POLLS,
        },
        (PumpState::Draining { polls }, PumpEvent::Buffered(n)) => if n == 0 || polls <= 1 {
            PumpState::Closed
        } else {
            PumpState::Draining { polls: (polls - 1) as u32 }
        },
        _ => state,
    }
}

/// What the background task does after an event.
pub open spec fn pump_action(state: PumpState, event: PumpEvent) -> PumpAction {
    match pump_next(state, event) {
        PumpState::Idle => PumpAction::Await,
        PumpState::Holding => PumpAction::Sleep,
        PumpState::Sending { .. } => PumpAction::Send,
        PumpState::Flushing => if state is Flushing && event is Frame {
            PumpAction::Send
        } else {
            PumpAction::TakeQueued
        },
        PumpState::Draining { .. } => if state is Draining {
            PumpAction::SleepAndLook
        } else {
            PumpAction::Look
        },
        PumpState::Closed => if state is Draining && event != PumpEvent::Buffered(0) {
            PumpAction::SleepAndClose
        } else {
            PumpAction::Close
        },
    }
}

/// What is reported of an event.
pub open spec fn pump_report(state: PumpState, event: PumpEvent) -> Option<Seq<char>> {
    match (state, event) {
        (PumpState::Sending { .. }, PumpEvent::SendFailed(error)) => Some(
            "DIAG transport: data_channel.send failed mid-transfer: "@ + error@,
        ),
        (PumpState::Flushing, PumpEvent::SendFailed(error)) => Some(
            "DIAG transport: data_channel.send failed during close-flush: "@ + error@,
        ),
        _ => None,
    }
}

/// The background task of a transport.
pub struct OutboundPump {
    pub state: PumpState,
}

impl OutboundPump {
    /// A task that waits for the first frame.
    pub fn new() -> (pump: OutboundPump)
        ensures
            pump.state == PumpState::Idle,
    {
        OutboundPump { state: PumpState::Idle }
    }

    /// Takes an event. Gives what to do, and what to report.
    pub fn on_event(&mut self, event: PumpEvent) -> (r: (PumpAction, Option<String>))
        ensures
            final(self).state == pump_next(old(self).state, event),
            r.0 == pump_action(old(self).state, event),
            crate::text::owned_text(r.1) == pump_report(old(self).state, event),
    {
        let before: PumpState = self.state;
        let held_queued: bool = match event {
            PumpEvent::Frame { .. } => true,
            _ => false,
        };
        let drained: bool = match event {
            PumpEvent::Buffered(n) => n == 0,
            _ => false,
        };
        let mut report: Option<String> = None;
        match before {
            PumpState::Idle => match event {
                PumpEvent::Frame { buffered } => {
                    if buffered >= BUFFERED_HIGH_WATERMARK {
                        self.state = PumpState::Holding;
                    } else {
                        self.state = PumpState::Sending { last: false };
                    }
                },
                PumpEvent::QueueClosed => {
                    self.state = PumpState::Flushing;
                },
                PumpEvent::Shutdown => {
                    self.state = PumpState::Flushing;
                },
                _ => {},
            },
            PumpState::Holding => match event {
                PumpEvent::Buffered(n) => {
                    if n <= BUFFERED_LOW_WATERMARK {
                        self.state = PumpState::Sending { last: false };
                    }
                },
                PumpEvent::Shutdown => {
                    self.state = PumpState::Sending { last: true };
                },
                _ => {},
            },
            PumpState::Sending { last } => match event {
                PumpEvent::Sent => {
                    if last {
                        self.state = PumpState::Flushing;
                    } else {
                        self.state = PumpState::Idle;
                    }
                },
                PumpEvent::SendFailed(error) => {
                    self.state = PumpState::Flushing;
                    let mut message: String =
                        "DIAG transport: data_channel.send failed mid-transfer: ".to_string();
                    message.append(error.as_str());
                    report = Some(message);
                },
                _ => {},
            },
            PumpState::Flushing => match event {
                PumpEvent::QueueEmpty => {
                    self.state = PumpState::Draining { polls: DRAIN_POLLS };
                },
                PumpEvent::QueueClosed => {
                    self.state = PumpState::Draining { polls: DRAIN_POLLS };
                },
                PumpEvent::SendFailed(error) => {
                    self.state = PumpState::Draining { polls: DRAIN_POLLS };
                    let mut message: String =
                        "DIAG transport: data_channel.send failed during close-flush: ".to_string();
                    message.append(error.as_str());
                    report = Some(message);
                },
                _ => {},
            },
            PumpState::Draining { polls } => match event {
                PumpEvent::Buffered(n) => {
                    if n == 0 || polls <= 1 {
                        self.state = PumpState::Closed;
                    } else {
                        self.state = PumpState::Draining { polls: polls - 1 };
                    }
                },
                _ => {},
            },
            PumpState::Closed => {},
        }
        let action: PumpAction = match self.state {
            PumpState::Idle => PumpAction::Await,
            PumpState::Holding => PumpAction::Sleep,
            PumpState::Sending { .. } => PumpAction::Send,
            PumpState::Flushing => {
                if before == PumpState::Flushing && held_queued {
                    PumpAction::Send
                } else {
                    PumpAction::TakeQueued
                }
            },
            PumpState::Draining { .. } => match before {
                PumpState::Draining { .. } => PumpAction::SleepAndLook,
                _ => PumpAction::Look,
            },
            PumpState::Closed => match before {
                PumpState::Draining { .. } => {
                    if drained {
                        PumpAction::Close
                    } else {
                        PumpAction::SleepAndClose
                    }
                },
                _ => PumpAction::Close,
            },
        };
        (action, report)
    }
}

/// Backpressure: once a frame is held back, it is not handed over before the channel
/// has come down, unless the transport is closed; and while the channel has too much,
/// no frame is handed over at once.
pub proof fn law_full_channel_holds_frames_back(state: PumpState, event: PumpEvent)
    ensures
        state is Holding && pump_action(state, event) is Send ==> event is Shutdown || (
        event matches PumpEvent::Buffered(n) && n <= BUFFERED_LOW_WATERMARK),
        state is Idle && pump_action(state, event) is Send ==> (event matches PumpEvent::Frame {
            buffered,
        } && buffered < BUFFERED_HIGH_WATERMARK),
{
}

/// A closing task looks at the channel a bounded number of times.
pub proof fn law_draining_ends(state: PumpState, buffered: usize)
    requires
        state is Draining,
    ensures
        pump_next(state, PumpEvent::Buffered(buffered)) matches PumpState::Draining { polls: left }
            ==> left < state->polls,
        pump_next(state, PumpEvent::Buffered(0)) is Closed,
{
}

/// A task that has begun to close never takes up the transfer again.
pub proof fn law_closing_is_final(state: PumpState, event: PumpEvent)
    requires
        state is Flushing || state is Draining || state is Closed,
    ensures
        pump_next(state, event) is Flushing || pump_next(state, event) is Draining || pump_next(
            state,
            event,
        ) is Closed,
        state is Closed ==> pump_next(state, event) is Closed,
{
}

/// A transport takes part exactly while it is neither closed nor on a dead path, and says
/// that it is closed where both hold.
pub proof fn law_only_a_live_channel_is_used(closed: bool, dead_pair: bool)
    ensures
        channel_fault(closed, dead_pair) is None <==> !closed && !dead_pair,
        closed ==> channel_fault(closed, dead_pair) == Some(TransportError::<Seq<char>>::Closed),
        !closed && dead_pair ==> channel_fault(closed, dead_pair) == Some(
            TransportError::<Seq<char>>::DeadPath,
        ),
{
}

/// Every frame is handed over once, in turn: one that is queued is handed over at once
/// while the channel has less than a mebibyte buffered, and else after the channel has
/// come down to a quarter of that. The next one is waited for only when the channel has
/// taken it.
pub proof fn law_frames_are_handed_over(buffered: usize)
    ensures
        ({
            let idle = PumpState::Idle;
            let frame = PumpEvent::Frame { buffered };
            let next = pump_next(idle, frame);
            &&& buffered < 1_048_576 ==> pump_action(idle, frame) is Send && next == (
            PumpState::Sending { last: false })
            &&& buffered >= 1_048_576 ==> pump_action(idle, frame) is Sleep && next
                == PumpState::Holding
        }),
        ({
            let held = PumpState::Holding;
            let look = PumpEvent::Buffered(buffered);
            let next = pump_next(held, look);
            &&& buffered <= 262_144 ==> pump_action(held, look) is Send && next == (
            PumpState::Sending { last: false })
            &&& buffered > 262_144 ==> pump_action(held, look) is Sleep && next
                == PumpState::Holding
        }),
        ({
            let sent = PumpState::Sending { last: false };
            &&& pump_next(sent, PumpEvent::Sent) == PumpState::Idle
            &&& pump_action(sent, PumpEvent::Sent) is Await
        }),
{
}

/// A transport that is closed loses nothing that it has taken: a frame that is held back
/// is handed over, then everything that is queued, and only once the queue is empty, or
/// the channel fails, is the channel drained.
pub proof fn law_closing_hands_over_what_is_queued(buffered: usize)
    ensures
        pump_next(PumpState::Idle, PumpEvent::Shutdown) == PumpState::Flushing,
        pump_action(PumpState::Idle, PumpEvent::Shutdown) is TakeQueued,
        pump_next(PumpState::Idle, PumpEvent::QueueClosed) == PumpState::Flushing,
        pump_action(PumpState::Idle, PumpEvent::QueueClosed) is TakeQueued,
        pump_next(PumpState::Holding, PumpEvent::Shutdown) == (PumpState::Sending { last: true }),
        pump_action(PumpState::Holding, PumpEvent::Shutdown) is Send,
        pump_next(PumpState::Sending { last: true }, PumpEvent::Sent) == PumpState::Flushing,
        pump_action(PumpState::Sending { last: true }, PumpEvent::Sent) is TakeQueued,
        pump_next(PumpState::Flushing, PumpEvent::Frame { buffered }) == PumpState::Flushing,
        pump_action(PumpState::Flushing, PumpEvent::Frame { buffered }) is Send,
        pump_next(PumpState::Flushing, PumpEvent::Sent) == PumpState::Flushing,
        pump_action(PumpState::Flushing, PumpEvent::Sent) is TakeQueued,
        pump_next(PumpState::Flushing, PumpEvent::QueueEmpty) == (PumpState::Draining {
            polls: 500,
        }),
        pump_action(PumpState::Flushing, PumpEvent::QueueEmpty) is Look,
        pump_next(PumpState::Flushing, PumpEvent::QueueClosed) == (PumpState::Draining {
            polls: 500,
        }),
        pump_action(PumpState::Flushing, PumpEvent::QueueClosed) is Look,
{
}

/// A channel that fails is reported, and the frames that are queued are tried once more
/// before it is closed.
pub proof fn law_failed_channels_are_reported(state: PumpState, event: PumpEvent)
    ensures
        pump_report(state, event) is Some <==> event is SendFailed && (state is Sending
            || state is Flushing),
        event matches PumpEvent::SendFailed(error) ==> {
            &&& state is Sending ==> pump_report(state, event) == Some(
                "DIAG transport: data_channel.send failed mid-transfer: "@ + error@,
            )
            &&& state is Flushing ==> pump_report(state, event) == Some(
                "DIAG transport: data_channel.send failed during close-flush: "@ + error@,
            )
        },
        state is Sending && event is SendFailed ==> pump_next(state, event) == PumpState::Flushing
            && pump_action(state, event) is TakeQueued,
        state is Flushing && event is SendFailed ==> pump_next(state, event) == (
        PumpState::Draining { polls: 500 }) && pump_action(state, event) is Look,
{
}

/// A draining channel is closed as soon as it has nothing buffered, and after the last
/// look anyway; before that it is looked at again.
pub proof fn law_drained_channels_are_closed(polls: u32, buffered: usize)
    ensures
        ({
            let state = PumpState::Draining { polls };
            let event = PumpEvent::Buffered(buffered);
            &&& buffered == 0 ==> pump_next(state, event) is Closed && pump_action(state, event)
                is Close
            &&& buffered > 0 && polls <= 1 ==> pump_next(state, event) is Closed && pump_action(
                state,
                event,
            ) is SleepAndClose
            &&& buffered > 0 && polls > 1 ==> pump_next(state, event) == (PumpState::Draining {
                polls: (polls - 1) as u32,
            }) && pump_action(state, event) is SleepAndLook
        }),
{
}

} // verus!
