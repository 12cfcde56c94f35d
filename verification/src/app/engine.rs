//! The engine: what a request is answered with before its transfer runs.

use vstd::prelude::*;
use vstd::string::*;

use crate::app::bench_series::{series_start, BenchmarkSeries};
use crate::app::control::SessionControl;
use crate::app::drive::{seen_in, Seen, Sight};
use crate::app::error::{AppError, DiscoveryError};
use crate::app::receive::Act;
use crate::app::remote::{has_turn_server, limit_chunk_size, limited, offers_turn};
use crate::app::remote_run::{remote_start, RemoteRun};
use crate::app::script::{event, no_actions, one_action, script, tell, Action};
use crate::app::types::{
    AcceptDecision, BenchmarkEvent, BenchmarkRequest, ConnectionState, CorePermissions,
    DiscoverRequest, DiscoveryEvent, DiscoverySummary, PlenumEvent, ReceiveRemoteRequest,
    ReceiveRequest, SendRemoteRequest, SendRequest, TransferDirection, TransferEvent,
};
use crate::app::validate::{
    benchmark_fault, discover_fault, receive_fault, receive_remote_fault, send_fault,
    send_remote_fault, validate_benchmark_request, validate_discover_request,
    validate_receive_remote_request, validate_receive_request, validate_send_remote_request,
    validate_send_request,
};
use crate::signaling::servers_of;
use crate::text::{copy_text, decimal, own, owned_text, push_decimal, text_of};

verus! {

/// How long a sender without an address searches for a peer, in seconds.
pub const SEND_DISCOVERY_TIMEOUT_SECS: u64 = 10;

/// The engine of one session.
pub struct PlenumCore {
    pub control: SessionControl,
}

/// Where a transfer on the local network goes.
pub enum SendRoute {
    /// To this address.
    Connect(String),
    /// To a peer that is still to be found.
    Discover(DiscoverRequest),
}

/// What a search for a peer asks for.
pub open spec fn same_search(
    request: DiscoverRequest,
    token: Option<Seq<char>>,
    timeout_secs: u64,
    permissions: CorePermissions,
) -> bool {
    &&& owned_text(request.token) == token
    &&& request.timeout_secs == timeout_secs
    &&& request.permissions == permissions
}

/// That a connection has come to a state.
pub open spec fn state_told(
    direction: TransferDirection,
    state: ConnectionState,
    peer: Option<Seq<char>>,
) -> Act {
    tell(TransferEvent::StateChanged { direction, state, peer })
}

/// Tells that a connection has come to a state.
pub fn state_changed(
    direction: TransferDirection,
    state: ConnectionState,
    peer: Option<&str>,
) -> (action: Action)
    ensures
        action@ == state_told(direction, state, text_of(peer)),
{
    event(TransferEvent::StateChanged { direction, state, peer: own(peer) })
}

/// Tells that a receiver listens on a port of all its addresses.
pub fn listening(port: u16) -> (action: Action)
    ensures
        action@ == state_told(
            TransferDirection::Receive,
            ConnectionState::Listening,
            Some("0.0.0.0:"@ + decimal(port as nat)),
        ),
{
    let mut address: String = "0.0.0.0:".to_string();
    push_decimal(&mut address, port as u64);
    event(
        TransferEvent::StateChanged {
            direction: TransferDirection::Receive,
            state: ConnectionState::Listening,
            peer: Some(address),
        },
    )
}

/// Tells that a receiver announces itself.
pub fn broadcasting(token: &str, port: u16) -> (action: Action)
    ensures
        action@ == Act::Emit(
            PlenumEvent::Discovery(DiscoveryEvent::BroadcastStarted { token: token@, port }),
        ),
{
    Action::Emit(
        PlenumEvent::Discovery(DiscoveryEvent::BroadcastStarted { token: token.to_string(), port }),
    )
}

/// What a search has ended with, told and returned.
pub struct SearchEnd {
    pub result: Result<DiscoverySummary, AppError>,
    pub actions: Vec<Action>,
}

/// Ends a search for a peer.
pub fn search_ended(outcome: Result<DiscoverySummary, DiscoveryError>) -> (end: SearchEnd)
    ensures
        end.result is Ok <==> outcome is Ok,
        script(end.actions@).len() <= 1,
        match outcome {
            Ok(summary) => {
                &&& end.result is Ok && end.result->Ok_0@ == summary@
                &&& script(end.actions@) == seq![
                    Act::Emit(PlenumEvent::Discovery(DiscoveryEvent::PeerFound(summary@))),
                ]
            },
            Err(error) => {
                &&& end.result is Err && end.result->Err_0@ == AppError::Discovery(error@)
                &&& script(end.actions@) == if error is NoPeersFound {
                    seq![Act::Emit(PlenumEvent::Discovery(DiscoveryEvent::PeerNotFound))]
                } else {
                    Seq::<Act>::empty()
                }
            },
        },
{
    match outcome {
        Ok(summary) => {
            let actions: Vec<Action> = one_action(
                Action::Emit(PlenumEvent::Discovery(DiscoveryEvent::PeerFound(summary.clone()))),
            );
            SearchEnd { result: Ok(summary), actions }
        },
        Err(DiscoveryError::NoPeersFound) => SearchEnd {
            result: Err(AppError::Discovery(DiscoveryError::NoPeersFound)),
            actions: one_action(
                Action::Emit(PlenumEvent::Discovery(DiscoveryEvent::PeerNotFound)),
            ),
        },
        Err(error) => SearchEnd {
            result: Err(AppError::Discovery(error)),
            actions: no_actions(),
        },
    }
}

/// A measurement that was asked for.
pub struct BenchmarkPlan {
    /// How many bytes each iteration sends.
    pub size_bytes: usize,
    /// That the measurement starts, told before the iterations.
    pub actions: Vec<Action>,
    /// The iterations.
    pub series: BenchmarkSeries,
}

/// A remote transfer that was asked for.
pub struct RemotePlan {
    /// Whether a TURN server is to be fetched first.
    pub fetch_turn: bool,
    /// The tries of the transfer.
    pub run: RemoteRun,
}

impl PlenumCore {
    /// An engine to which nothing was said yet.
    pub fn new() -> (core: PlenumCore)
        ensures
            core.control == (SessionControl {
                cancelled: false,
                decision: AcceptDecision::Pending,
            }),
    {
        PlenumCore { control: SessionControl::new() }
    }

    /// What the user says to this session. What is said through it is what the session
    /// sees.
    pub fn control(&mut self) -> (control: &mut SessionControl)
        ensures
            *control == old(self).control,
            final(self).control == *final(control),
    {
        &mut self.control
    }

    /// What a step of this session sees: what its driver sees, and what the user has
    /// said to it.
    pub fn look(&self, sight: Sight) -> (seen: Seen)
        ensures
            seen == seen_in(self.control, sight),
    {
        Seen {
            now_ns: sight.now_ns,
            now_ms: sight.now_ms,
            cancelled: self.control.is_cancelled(),
            decision: self.control.decision(),
            relayed: sight.relayed,
            pending: sight.pending,
            in_flight: sight.in_flight,
            window_empty: sight.window_empty,
            next_expected: sight.next_expected,
        }
    }

    /// Whether this session was asked to stop.
    pub fn is_cancelled(&self) -> (cancelled: bool)
        ensures
            cancelled == self.control.cancelled,
    {
        self.control.is_cancelled()
    }

    /// Begins to send on the local network: says where the transfer goes. The
    /// actions tell that a peer is searched for, where there is no address.
    pub fn send_file(&self, request: &SendRequest) -> (r: Result<
        (SendRoute, Vec<Action>),
        AppError,
    >)
        ensures
            r is Ok <==> send_fault(*request) is None,
            r matches Ok((route, _)) ==> (route is Connect <==> request.address is Some),
            match r {
                Err(error) => send_fault(*request) == Some(error@),
                Ok((route, actions)) => {
                    &&& send_fault(*request) is None
                    &&& match request.address {
                        Some(address) => {
                            &&& route matches SendRoute::Connect(to) && to@ == address@
                            &&& script(actions@) == Seq::<Act>::empty()
                        },
                        None => {
                            &&& route matches SendRoute::Discover(search) && same_search(
                                search,
                                owned_text(request.discovery_token),
                                SEND_DISCOVERY_TIMEOUT_SECS,
                                request.permissions,
                            )
                            &&& script(actions@) == seq![
                                state_told(
                                    TransferDirection::Send,
                                    ConnectionState::Discovering,
                                    None,
                                ),
                            ]
                        },
                    }
                },
            },
    {
        match validate_send_request(request) {
            Err(error) => return Err(error),
            Ok(()) => {},
        }
        match &request.address {
            Some(address) => Ok(
                (SendRoute::Connect(address.as_str().to_string()), no_actions()),
            ),
            None => Ok(
                (
                    SendRoute::Discover(
                        DiscoverRequest {
                            token: copy_text(&request.discovery_token),
                            timeout_secs: SEND_DISCOVERY_TIMEOUT_SECS,
                            permissions: request.permissions,
                        },
                    ),
                    one_action(
                        state_changed(TransferDirection::Send, ConnectionState::Discovering, None),
                    ),
                ),
            ),
        }
    }

    /// Begins to receive on the local network. What was said of an earlier transfer
    /// no longer counts.
    pub fn receive_file(&mut self, request: &ReceiveRequest) -> (r: Result<(), AppError>)
        ensures
            match r {
                Err(error) => receive_fault(*request) == Some(error@) && *final(self) == *old(self),
                Ok(_) => receive_fault(*request) is None && final(self).control == (
                SessionControl { decision: AcceptDecision::Pending, ..old(self).control }),
            },
    {
        match validate_receive_request(request) {
            Err(error) => return Err(error),
            Ok(()) => {},
        }
        self.control.reset_decision();
        Ok(())
    }

    /// Begins to send to a remote peer: limits the chunk size, and says whether a
    /// TURN server is to be fetched and how the transfer is tried.
    pub fn send_file_remote(&self, request: &mut SendRemoteRequest) -> (r: Result<
        RemotePlan,
        AppError,
    >)
        ensures
            match r {
                Err(error) => send_remote_fault(*old(request)) == Some(error@) && *final(request)
                    == *old(request),
                Ok(plan) => {
                    &&& send_remote_fault(*old(request)) is None
                    &&& *final(request) == (SendRemoteRequest {
                        options: limited(old(request).options),
                        ..*old(request)
                    })
                    &&& plan.fetch_turn == !offers_turn(servers_of(old(request).ice_servers@))
                    &&& plan.run@ == remote_start(TransferDirection::Send, old(request).options)
                },
            },
    {
        match validate_send_remote_request(request) {
            Err(error) => return Err(error),
            Ok(()) => {},
        }
        limit_chunk_size(&mut request.options);
        Ok(
            RemotePlan {
                fetch_turn: !has_turn_server(request.ice_servers.as_slice()),
                run: RemoteRun::new(TransferDirection::Send, &request.options),
            },
        )
    }

    /// Begins to receive from a remote peer: limits the chunk size, and says whether
    /// a TURN server is to be fetched and how the transfer is tried.
    pub fn receive_file_remote(&self, request: &mut ReceiveRemoteRequest) -> (r: Result<
        RemotePlan,
        AppError,
    >)
        ensures
            match r {
                Err(error) => receive_remote_fault(*old(request)) == Some(error@)
                    && *final(request) == *old(request),
                Ok(plan) => {
                    &&& receive_remote_fault(*old(request)) is None
                    &&& *final(request) == (ReceiveRemoteRequest {
                        options: limited(old(request).options),
                        ..*old(request)
                    })
                    &&& plan.fetch_turn == !offers_turn(servers_of(old(request).ice_servers@))
                    &&& plan.run@ == remote_start(TransferDirection::Receive, old(request).options)
                },
            },
    {
        match validate_receive_remote_request(request) {
            Err(error) => return Err(error),
            Ok(()) => {},
        }
        limit_chunk_size(&mut request.options);
        Ok(
            RemotePlan {
                fetch_turn: !has_turn_server(request.ice_servers.as_slice()),
                run: RemoteRun::new(TransferDirection::Receive, &request.options),
            },
        )
    }

    /// Begins one try to receive from a remote peer. What was said of an earlier
    /// transfer no longer counts.
    pub fn begin_receive_attempt(&mut self)
        ensures
            final(self).control == (SessionControl {
                decision: AcceptDecision::Pending,
                ..old(self).control
            }),
    {
        self.control.reset_decision();
    }

    /// Begins a search for a peer. What it ends with is for `search_ended`.
    pub fn discover_peer(&mut self, request: &DiscoverRequest) -> (r: Result<Vec<Action>, AppError>)
        ensures
            *final(self) == *old(self),
            match r {
                Err(error) => discover_fault(*request) == Some(error@),
                Ok(actions) => discover_fault(*request) is None && script(actions@) == seq![
                    Act::Emit(
                        PlenumEvent::Discovery(
                            DiscoveryEvent::SearchStarted {
                                token: owned_text(request.token),
                                timeout_secs: request.timeout_secs,
                            },
                        ),
                    ),
                ],
            },
    {
        match validate_discover_request(request) {
            Err(error) => return Err(error),
            Ok(()) => {},
        }
        Ok(
            one_action(
                Action::Emit(
                    PlenumEvent::Discovery(
                        DiscoveryEvent::SearchStarted {
                            token: copy_text(&request.token),
                            timeout_secs: request.timeout_secs,
                        },
                    ),
                ),
            ),
        )
    }

    /// Begins a measurement. The size in bytes of one that is not refused must fit the
    /// machine.
    pub fn benchmark(&mut self, request: &BenchmarkRequest) -> (r: Result<BenchmarkPlan, AppError>)
        requires
            benchmark_fault(*request) is None ==> request.size_mb * 1_048_576 <= usize::MAX,
        ensures
            *final(self) == *old(self),
            match r {
                Err(error) => benchmark_fault(*request) == Some(error@),
                Ok(plan) => {
                    &&& benchmark_fault(*request) is None
                    &&& plan.size_bytes == request.size_mb * 1_048_576
                    &&& plan.series.wf()
                    &&& plan.series@ == series_start(request.size_mb, request.iterations)
                    &&& script(plan.actions@) == seq![
                        Act::Emit(
                            PlenumEvent::Benchmark(
                                BenchmarkEvent::Started {
                                    size_mb: request.size_mb,
                                    iterations: request.iterations,
                                    latency_ticks: request.latency_ticks,
                                },
                            ),
                        ),
                    ]
                },
            },
    {
        match validate_benchmark_request(request) {
            Err(error) => return Err(error),
            Ok(()) => {},
        }
        Ok(
            BenchmarkPlan {
                size_bytes: request.size_mb * 1024 * 1024,
                series: BenchmarkSeries::new(request.size_mb, request.iterations),
                actions: one_action(
                    Action::Emit(
                        PlenumEvent::Benchmark(
                            BenchmarkEvent::Started {
                                size_mb: request.size_mb,
                                iterations: request.iterations,
                                latency_ticks: request.latency_ticks,
                            },
                        ),
                    ),
                ),
            },
        )
    }

    /// Answers a signaling message with what the signaling table makes of it: the
    /// messages to route, or why there are none.
    pub fn handle_signal<M>(&mut self, routed: Result<Vec<M>, String>) -> (r: Result<
        Vec<M>,
        AppError,
    >)
        ensures
            *final(self) == *old(self),
            match routed {
                Ok(messages) => r is Ok && r->Ok_0 == messages,
                Err(reason) => r is Err && r->Err_0@ == AppError::Signaling(reason@),
            },
    {
        match routed {
            Ok(messages) => Ok(messages),
            Err(reason) => Err(AppError::Signaling(reason)),
        }
    }

    /// The session of a peer, as the signaling table has it.
    pub fn session_of(&self, found: Option<&str>) -> (session: Option<String>)
        ensures
            owned_text(session) == text_of(found),
    {
        own(found)
    }

    /// The peers of a session, as the signaling table has them.
    pub fn peers_in_session(&self, found: Option<Vec<String>>) -> (peers: Option<Vec<String>>)
        ensures
            peers == found,
    {
        found
    }
}

} // verus!
