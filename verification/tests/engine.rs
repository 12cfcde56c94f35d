use plenum::app::bench_run::{benchmark_payload, BenchmarkInput, BenchmarkRun, BenchmarkStep};
use plenum::app::bench_series::{BenchmarkIteration, SeriesEvent, SeriesRequest};
use plenum::app::drive::Sight;
use plenum::app::engine::{broadcasting, listening, search_ended, state_changed, SendRoute};
use plenum::app::error::DiscoveryError;
use plenum::app::remote::{
    after_first_attempt, ensure_turn_server, has_turn_server, limit_chunk_size, rtc_connect_error,
    Retry,
};
use plenum::app::remote_run::{RemoteEvent, RemoteRequest, RemoteRun};
use plenum::app::script::Action;
use plenum::app::types::{
    AcceptDecision, BenchmarkRequest, DiscoverRequest, DiscoveryEvent, DiscoverySummary,
    PermissionKind, ReceiveRemoteRequest, SendRemoteRequest,
};
use plenum::app::validate::validate_remote_request_fields;
use plenum::app::{
    AppError, ConnectionState, CorePermissions, LogLevel, PlenumCore, PlenumEvent, ReceiveRequest,
    SendRequest, TransferDirection, TransferEvent, TransferOptions,
};
use plenum::protocol::{Packet, PacketType};
use plenum::rtc::RtcError;
use plenum::signaling::IceServer;
use plenum::transport::TransportError;

fn options() -> TransferOptions {
    TransferOptions { chunk_size: 65_536, window_size: 64, timeout_ticks: 15_000 }
}

fn send_request() -> SendRequest {
    SendRequest {
        file_path: "f".to_string(),
        address: Some("10.0.0.1:9000".to_string()),
        discovery_token: Some("TOKEN".to_string()),
        device_name: None,
        options: options(),
        permissions: CorePermissions::full(),
    }
}

fn receive_request() -> ReceiveRequest {
    ReceiveRequest {
        output_dir: "d".to_string(),
        port: 0,
        announce_on_lan: false,
        require_pin: false,
        auto_accept: true,
        device_name: None,
        options: options(),
        permissions: CorePermissions::full(),
    }
}

fn send_remote_request() -> SendRemoteRequest {
    SendRemoteRequest {
        file_path: "f".to_string(),
        relay_server_url: "wss://example.com".to_string(),
        session_id: "room".to_string(),
        my_peer_id: "me".to_string(),
        ice_servers: vec![],
        connect_timeout_secs: 30,
        device_name: None,
        options: options(),
        permissions: CorePermissions::full(),
    }
}

fn invalid<T>(r: Result<T, AppError>) -> String {
    match r {
        Err(AppError::InvalidRequest(message)) => message,
        _ => panic!("must be an invalid request"),
    }
}

fn denied<T>(r: Result<T, AppError>) -> (PermissionKind, &'static str) {
    match r {
        Err(AppError::PermissionDenied { permission, operation }) => (permission, operation),
        _ => panic!("must be denied"),
    }
}

fn without(kind: PermissionKind) -> CorePermissions {
    let mut permissions = CorePermissions::full();
    match kind {
        PermissionKind::LocalNetwork => permissions.local_network = false,
        PermissionKind::FileSystemRead => permissions.file_system_read = false,
        PermissionKind::FileSystemWrite => permissions.file_system_write = false,
        PermissionKind::BackgroundTransfer => permissions.background_transfer = false,
    }
    permissions
}

#[test]
fn sending_needs_permissions_and_tuning() {
    let core = PlenumCore::new();
    let mut request = send_request();
    assert!(core.send_file(&request).is_ok());
    request.permissions = without(PermissionKind::FileSystemRead);
    assert_eq!(denied(core.send_file(&request)), (PermissionKind::FileSystemRead, "send_file"));
    request.permissions = without(PermissionKind::LocalNetwork);
    assert_eq!(denied(core.send_file(&request)), (PermissionKind::LocalNetwork, "send_file"));
    request.permissions = without(PermissionKind::FileSystemWrite);
    assert!(core.send_file(&request).is_ok());
    request.options.chunk_size = 0;
    assert_eq!(invalid(core.send_file(&request)), "chunk size must be greater than zero");
    request.options.chunk_size = 1;
    request.options.window_size = 0;
    assert_eq!(invalid(core.send_file(&request)), "window size must be greater than zero");
}

#[test]
fn sending_without_an_address_searches() {
    let core = PlenumCore::new();
    let mut request = send_request();
    match core.send_file(&request) {
        Ok((SendRoute::Connect(address), actions)) => {
            assert_eq!(address, "10.0.0.1:9000");
            assert!(actions.is_empty());
        }
        _ => panic!("the address was given"),
    }
    request.address = None;
    match core.send_file(&request) {
        Ok((SendRoute::Discover(search), actions)) => {
            assert_eq!(search.token.as_deref(), Some("TOKEN"));
            assert_eq!(search.timeout_secs, 10);
            assert_eq!(search.permissions, CorePermissions::full());
            assert_eq!(actions.len(), 1);
            match &actions[0] {
                Action::Emit(PlenumEvent::Transfer(TransferEvent::StateChanged {
                    direction,
                    state,
                    peer,
                })) => {
                    assert_eq!(*direction, TransferDirection::Send);
                    assert_eq!(*state, ConnectionState::Discovering);
                    assert_eq!(*peer, None);
                }
                _ => panic!("the search must be told"),
            }
        }
        _ => panic!("a peer must be searched for"),
    }
}

#[test]
fn receiving_forgets_an_earlier_answer() {
    let mut core = PlenumCore::new();
    core.control().accept();
    core.control().cancel();
    assert_eq!(core.control().decision(), AcceptDecision::Accepted);
    let mut request = receive_request();
    request.permissions = without(PermissionKind::FileSystemWrite);
    assert_eq!(
        denied(core.receive_file(&request)),
        (PermissionKind::FileSystemWrite, "receive_file")
    );
    assert_eq!(core.control().decision(), AcceptDecision::Accepted);
    request.permissions = without(PermissionKind::LocalNetwork);
    assert_eq!(
        denied(core.receive_file(&request)),
        (PermissionKind::LocalNetwork, "receive_file")
    );
    assert!(core.receive_file(&receive_request()).is_ok());
    assert_eq!(core.control().decision(), AcceptDecision::Pending);
    assert!(core.control().is_cancelled());
    core.control().decline();
    core.begin_receive_attempt();
    assert_eq!(core.control().decision(), AcceptDecision::Pending);
}

#[test]
fn what_is_said_to_a_core_is_what_its_steps_see() {
    let sight = Sight {
        now_ns: 7,
        now_ms: 8,
        relayed: Some(true),
        pending: 1,
        in_flight: 2,
        window_empty: false,
        next_expected: 3,
    };
    let mut core = PlenumCore::new();
    let mut other = PlenumCore::new();
    let seen = core.look(sight);
    assert!(!seen.cancelled);
    assert_eq!(seen.decision, AcceptDecision::Pending);
    assert_eq!((seen.now_ns, seen.now_ms, seen.relayed), (7, 8, Some(true)));
    assert_eq!((seen.pending, seen.in_flight, seen.next_expected), (1, 2, 3));
    assert!(!seen.window_empty);

    core.control().cancel();
    core.control().accept();
    assert!(core.control().is_cancelled());
    assert!(core.is_cancelled());
    assert!(core.look(sight).cancelled);
    assert_eq!(core.look(sight).decision, AcceptDecision::Accepted);
    assert!(!other.control().is_cancelled());
    assert!(!other.look(sight).cancelled);
    assert_eq!(other.look(sight).decision, AcceptDecision::Pending);
}

#[test]
fn remote_requests_need_a_relay_and_a_session() {
    let core = PlenumCore::new();
    let mut request = send_remote_request();
    request.options.chunk_size = 1_000_000;
    request.permissions = without(PermissionKind::LocalNetwork);
    let plan = core.send_file_remote(&mut request).ok().unwrap();
    assert!(plan.fetch_turn);
    assert_eq!(plan.run.options.chunk_size, 32 * 1024);
    assert_eq!(plan.run.direction, TransferDirection::Send);
    assert_eq!(request.options.chunk_size, 32 * 1024);

    let mut request = send_remote_request();
    request.permissions = without(PermissionKind::FileSystemRead);
    assert_eq!(
        denied(core.send_file_remote(&mut request)),
        (PermissionKind::FileSystemRead, "send_file_remote")
    );
    assert_eq!(request.options.chunk_size, 65_536);

    assert_eq!(
        invalid(validate_remote_request_fields("  ", "s", 1)),
        "relay server url must not be empty"
    );
    assert_eq!(
        invalid(validate_remote_request_fields("u", "\t", 1)),
        "session id must not be empty"
    );
    assert_eq!(
        invalid(validate_remote_request_fields("u", "s", 0)),
        "connect timeout must be greater than zero"
    );

    let mut request = ReceiveRemoteRequest {
        output_dir: "d".to_string(),
        relay_server_url: "wss://example.com".to_string(),
        session_id: "room".to_string(),
        my_peer_id: "me".to_string(),
        ice_servers: vec![IceServer::new(vec!["turns:x".to_string()])],
        connect_timeout_secs: 30,
        auto_accept: false,
        device_name: None,
        options: TransferOptions { chunk_size: 100, ..options() },
        permissions: CorePermissions::full(),
    };
    let plan = core.receive_file_remote(&mut request).ok().unwrap();
    assert!(!plan.fetch_turn);
    assert_eq!(plan.run.options.chunk_size, 100);
    assert_eq!(plan.run.direction, TransferDirection::Receive);
    assert_eq!(request.options.chunk_size, 100);
    request.permissions = without(PermissionKind::FileSystemWrite);
    assert_eq!(
        denied(core.receive_file_remote(&mut request)),
        (PermissionKind::FileSystemWrite, "receive_file_remote")
    );
}

#[test]
fn search_is_told_from_start_to_end() {
    let mut core = PlenumCore::new();
    let mut request = DiscoverRequest {
        token: Some("T".to_string()),
        timeout_secs: 3,
        permissions: CorePermissions::full(),
    };
    match core.discover_peer(&request).ok().unwrap().pop() {
        Some(Action::Emit(PlenumEvent::Discovery(DiscoveryEvent::SearchStarted {
            token,
            timeout_secs,
        }))) => {
            assert_eq!(token.as_deref(), Some("T"));
            assert_eq!(timeout_secs, 3);
        }
        _ => panic!("the search must be told"),
    }
    request.timeout_secs = 0;
    assert_eq!(
        invalid(core.discover_peer(&request)),
        "discover timeout must be greater than zero"
    );
    request.permissions = without(PermissionKind::LocalNetwork);
    assert_eq!(
        denied(core.discover_peer(&request)),
        (PermissionKind::LocalNetwork, "discover_peer")
    );

    let summary = DiscoverySummary {
        hostname: "h".to_string(),
        address: "a".to_string(),
        token: "t".to_string(),
        pin_required: true,
    };
    let end = search_ended(Ok(summary.clone()));
    assert_eq!(end.result.ok(), Some(summary));
    assert!(matches!(
        end.actions[0],
        Action::Emit(PlenumEvent::Discovery(DiscoveryEvent::PeerFound(_)))
    ));
    let end = search_ended(Err(DiscoveryError::NoPeersFound));
    assert!(matches!(
        end.result,
        Err(AppError::Discovery(DiscoveryError::NoPeersFound))
    ));
    assert!(matches!(
        end.actions[0],
        Action::Emit(PlenumEvent::Discovery(DiscoveryEvent::PeerNotFound))
    ));
    let end = search_ended(Err(DiscoveryError::Failed("socket".to_string())));
    assert!(end.result.is_err());
    assert!(end.actions.is_empty());
}

#[test]
fn measurement_is_checked_and_sized() {
    let mut core = PlenumCore::new();
    let mut request =
        BenchmarkRequest { size_mb: 2, iterations: 3, latency_ticks: 1, options: options() };
    let plan = core.benchmark(&request).ok().unwrap();
    assert_eq!(plan.size_bytes, 2_097_152);
    assert_eq!(plan.actions.len(), 1);
    let mut series = plan.series;
    let mut told = Vec::new();
    let mut event = SeriesEvent::Done;
    let summary = loop {
        event = match series.step(event) {
            SeriesRequest::Iterate { iteration } => SeriesEvent::Iterated {
                peak_sender_buffered_bytes: 10 * iteration,
                peak_receiver_buffered_bytes: iteration,
            },
            SeriesRequest::TellIteration(figures) => {
                told.push(figures);
                SeriesEvent::Done
            }
            SeriesRequest::TellCompleted { size_mb, iterations } => break (size_mb, iterations),
            SeriesRequest::OutOfStep => panic!("the driver is in step"),
        };
    };
    let figures = |iteration: usize| BenchmarkIteration {
        iteration,
        peak_sender_buffered_bytes: 10 * iteration,
        peak_receiver_buffered_bytes: iteration,
    };
    assert_eq!(told, vec![figures(1), figures(2), figures(3)]);
    assert_eq!(summary, (2, told));
    assert!(matches!(series.step(SeriesEvent::Done), SeriesRequest::OutOfStep));
    request.options.window_size = 0;
    assert_eq!(
        invalid(core.benchmark(&request)),
        "transfer tuning values must be greater than zero"
    );
    request.iterations = 0;
    assert_eq!(
        invalid(core.benchmark(&request)),
        "benchmark iterations must be greater than zero"
    );
    request.size_mb = 0;
    assert_eq!(invalid(core.benchmark(&request)), "benchmark size must be greater than zero");

    let payload = benchmark_payload(600);
    assert_eq!(payload.len(), 600);
    assert_eq!(payload[250], 250);
    assert_eq!(payload[251], 0);
    assert_eq!(payload[599], 97);

    request.size_mb = usize::MAX;
    assert_eq!(
        invalid(core.benchmark(&request)),
        "benchmark iterations must be greater than zero"
    );
}

#[test]
fn measurement_runs_until_the_payload_is_restored() {
    let data = |seq: u32, bytes: &[u8]| Packet::new(PacketType::Data, seq, bytes.to_vec());
    let mut run = BenchmarkRun::new(b"abcd".to_vec());
    assert!(matches!(run.step(BenchmarkInput::Done), BenchmarkStep::Measure));
    assert!(matches!(
        run.step(BenchmarkInput::Buffered { sender: 5, receiver: 1 }),
        BenchmarkStep::Send { tick: 0 }
    ));
    assert!(matches!(run.step(BenchmarkInput::Done), BenchmarkStep::ReceiveData));
    match run.step(BenchmarkInput::Packet(data(0, b"abc"))) {
        BenchmarkStep::Window(packet) => assert_eq!(packet.payload, b"abc"),
        _ => panic!("the packet goes to the window"),
    }
    let windowed = BenchmarkInput::Windowed {
        controls: vec![Packet::new(PacketType::Ack, 0, Vec::new())],
        payloads: vec![b"ab".to_vec(), b"c".to_vec()],
    };
    match run.step(windowed) {
        BenchmarkStep::Answer(packets) => assert_eq!(packets.len(), 1),
        _ => panic!("the answers are sent"),
    }
    assert_eq!(run.restored, b"abc");
    assert!(matches!(run.step(BenchmarkInput::Done), BenchmarkStep::ReceiveData));
    assert!(matches!(
        run.step(BenchmarkInput::Nothing { sender_empty: false }),
        BenchmarkStep::ReceiveAnswer
    ));
    assert!(matches!(
        run.step(BenchmarkInput::Packet(Packet::new(PacketType::Ack, 0, Vec::new()))),
        BenchmarkStep::Control(_)
    ));
    assert!(matches!(run.step(BenchmarkInput::Done), BenchmarkStep::ReceiveAnswer));
    // One byte is missing, so the next tick begins.
    assert!(matches!(
        run.step(BenchmarkInput::Nothing { sender_empty: true }),
        BenchmarkStep::Tick
    ));
    assert!(matches!(run.step(BenchmarkInput::Done), BenchmarkStep::Measure));
    assert!(matches!(
        run.step(BenchmarkInput::Buffered { sender: 3, receiver: 2 }),
        BenchmarkStep::Send { tick: 1 }
    ));
    assert_eq!(run.peak_sender_buffered_bytes, 5);
    assert_eq!(run.peak_receiver_buffered_bytes, 2);
    run.step(BenchmarkInput::Done);
    run.step(BenchmarkInput::Packet(data(1, b"d")));
    run.step(BenchmarkInput::Windowed { controls: Vec::new(), payloads: vec![b"d".to_vec()] });
    run.step(BenchmarkInput::Done);
    run.step(BenchmarkInput::Nothing { sender_empty: true });
    assert!(matches!(
        run.step(BenchmarkInput::Nothing { sender_empty: true }),
        BenchmarkStep::Finished
    ));
    assert!(matches!(run.step(BenchmarkInput::Done), BenchmarkStep::OutOfStep));
}

#[test]
fn measurement_gives_up_after_its_last_tick() {
    let mut run = BenchmarkRun::new(b"never".to_vec());
    let mut ticks = 0;
    let mut step = run.step(BenchmarkInput::Done);
    loop {
        let input = match step {
            BenchmarkStep::Measure => BenchmarkInput::Buffered { sender: 0, receiver: 0 },
            BenchmarkStep::ReceiveData | BenchmarkStep::ReceiveAnswer => {
                BenchmarkInput::Nothing { sender_empty: false }
            }
            BenchmarkStep::Tick => {
                ticks += 1;
                BenchmarkInput::Done
            }
            BenchmarkStep::Finished => break,
            _ => BenchmarkInput::Done,
        };
        step = run.step(input);
    }
    assert_eq!(ticks, 200_000);
    assert_eq!(run.tick, 199_999);
}

#[test]
fn signaling_answers_are_handed_on() {
    let mut core = PlenumCore::new();
    assert_eq!(core.handle_signal(Ok(vec![1, 2])).ok(), Some(vec![1, 2]));
    match core.handle_signal::<u8>(Err("unknown peer".to_string())) {
        Err(AppError::Signaling(reason)) => assert_eq!(reason, "unknown peer"),
        _ => panic!("must fail"),
    }
    assert_eq!(core.session_of(Some("room")).as_deref(), Some("room"));
    assert_eq!(core.session_of(None), None);
    assert_eq!(
        core.peers_in_session(Some(vec!["a".to_string()])),
        Some(vec!["a".to_string()])
    );
    assert_eq!(core.peers_in_session(None), None);
}

#[test]
fn states_are_told() {
    match listening(9000) {
        Action::Emit(PlenumEvent::Transfer(TransferEvent::StateChanged { state, peer, .. })) => {
            assert_eq!(state, ConnectionState::Listening);
            assert_eq!(peer.as_deref(), Some("0.0.0.0:9000"));
        }
        _ => panic!("must be told"),
    }
    assert!(matches!(
        state_changed(TransferDirection::Send, ConnectionState::Connecting, Some("p")),
        Action::Emit(PlenumEvent::Transfer(TransferEvent::StateChanged { .. }))
    ));
    match broadcasting("T", 1) {
        Action::Emit(PlenumEvent::Discovery(DiscoveryEvent::BroadcastStarted { token, port })) => {
            assert_eq!(token, "T");
            assert_eq!(port, 1);
        }
        _ => panic!("must be told"),
    }
}

#[test]
fn turn_server_is_added_only_where_there_is_none() {
    let turn = || IceServer::new(vec!["turn:x".to_string()]);
    let mut servers = vec![IceServer::new(vec!["stun:y".to_string()])];
    assert!(!has_turn_server(&servers));
    let log = |actions: Vec<Action>| match &actions[0] {
        Action::Emit(PlenumEvent::Log { level, message }) => (*level, message.clone()),
        _ => panic!("must be logged"),
    };
    let (level, message) = log(ensure_turn_server(&mut servers, None));
    assert_eq!(level, LogLevel::Warn);
    assert_eq!(
        message,
        "DIAG rtc: no TURN server available (fetch failed); proceeding STUN-only"
    );
    assert_eq!(servers.len(), 1);
    let (level, message) = log(ensure_turn_server(&mut servers, Some(turn())));
    assert_eq!(level, LogLevel::Info);
    assert_eq!(
        message,
        "DIAG rtc: no TURN server in request; fetched credentials via core fallback path"
    );
    assert_eq!(servers.len(), 2);
    assert!(has_turn_server(&servers));
    assert!(ensure_turn_server(&mut servers, Some(turn())).is_empty());
    assert_eq!(servers.len(), 2);
}

#[test]
fn second_attempt_is_announced_and_delayed() {
    let servers = vec![IceServer::new(vec!["turn:x".to_string()])];
    let dead = AppError::Transport(TransportError::DeadPath);
    match after_first_attempt(TransferDirection::Send, &dead, "dead", &servers, false) {
        Retry::ViaRelay { actions, delay_secs } => {
            assert_eq!(delay_secs, 5);
            match &actions[0] {
                Action::Emit(PlenumEvent::Log { message, .. }) => assert_eq!(
                    message,
                    "DIAG rtc: send failed on dead/timed-out path (dead); retrying once via forced TURN relay"
                ),
                _ => panic!("must be logged"),
            }
        }
        Retry::GiveUp => panic!("must be tried again"),
    }
    match after_first_attempt(TransferDirection::Receive, &dead, "dead", &servers, false) {
        Retry::ViaRelay { delay_secs, .. } => assert_eq!(delay_secs, 2),
        Retry::GiveUp => panic!("must be tried again"),
    }
    assert!(matches!(
        after_first_attempt(TransferDirection::Send, &dead, "dead", &servers, true),
        Retry::GiveUp
    ));
    assert!(matches!(
        after_first_attempt(TransferDirection::Send, &dead, "dead", &[], false),
        Retry::GiveUp
    ));
}

/// Runs the tries of a remote transfer, each of which fails with `error`. Gives what was
/// asked for, and the result.
fn tries(
    direction: TransferDirection,
    servers: &[IceServer],
    error: impl Fn() -> AppError,
    cancelled: impl Fn(usize) -> bool,
) -> (Vec<(bool, usize)>, Vec<u64>, usize, AppError) {
    let wanted = TransferOptions { chunk_size: 40_000, ..options() };
    let mut run = RemoteRun::new(direction, &wanted);
    let (mut attempts, mut sleeps, mut announced) = (Vec::new(), Vec::new(), 0);
    let mut event = RemoteEvent::Done;
    for step in 0.. {
        event = match run.step(event, servers, cancelled(step)) {
            RemoteRequest::Attempt { force_relay, options } => {
                attempts.push((force_relay, options.chunk_size));
                RemoteEvent::Ended { outcome: Err(error()), error_text: "dead".to_string() }
            }
            RemoteRequest::Perform(actions) => {
                announced += actions.len();
                RemoteEvent::Done
            }
            RemoteRequest::Sleep(secs) => {
                sleeps.push(secs);
                RemoteEvent::Done
            }
            RemoteRequest::Return(Err(error)) => return (attempts, sleeps, announced, error),
            _ => panic!("the driver is in step"),
        };
    }
    unreachable!()
}

#[test]
fn remote_transfer_is_tried_at_most_twice() {
    let servers = vec![IceServer::new(vec!["turn:x".to_string()])];
    let dead = || AppError::Transport(TransportError::DeadPath);
    let once = vec![(false, 32_768)];
    let twice = vec![(false, 32_768), (true, 32_768)];

    let (attempts, sleeps, announced, error) =
        tries(TransferDirection::Send, &servers, dead, |_| false);
    assert_eq!((attempts, sleeps, announced), (twice.clone(), vec![5], 1));
    assert!(matches!(error, AppError::Transport(TransportError::DeadPath)));
    let timeout = || AppError::Rtc(RtcError::Timeout);
    let (attempts, sleeps, ..) = tries(TransferDirection::Receive, &servers, timeout, |_| false);
    assert_eq!((attempts, sleeps), (twice, vec![2]));

    // The first result stands: another failure, no TURN server, cancelled before the wait
    // or during it.
    let refused = || AppError::Rejected("no".to_string());
    let (attempts, sleeps, ..) = tries(TransferDirection::Send, &servers, refused, |_| false);
    assert_eq!((attempts, sleeps.len()), (once.clone(), 0));
    let (attempts, sleeps, ..) = tries(TransferDirection::Send, &[], dead, |_| false);
    assert_eq!((attempts, sleeps.len()), (once.clone(), 0));
    let (attempts, sleeps, ..) = tries(TransferDirection::Send, &servers, dead, |step| step == 1);
    assert_eq!((attempts, sleeps.len()), (once.clone(), 0));
    let (attempts, sleeps, announced, error) =
        tries(TransferDirection::Send, &servers, dead, |step| step == 3);
    assert_eq!((attempts, sleeps, announced), (once, vec![5], 1));
    assert!(matches!(error, AppError::Transport(TransportError::DeadPath)));

    // A driver that tells of what it was not asked for gets nothing.
    let mut run = RemoteRun::new(TransferDirection::Send, &options());
    let ended = RemoteEvent::Ended { outcome: Err(dead()), error_text: String::new() };
    assert!(matches!(run.step(ended, &servers, false), RemoteRequest::OutOfStep));
}

#[test]
fn cancelled_connection_is_told() {
    let (error, actions) = rtc_connect_error(RtcError::Cancelled, TransferDirection::Send);
    assert!(matches!(error, AppError::Cancelled));
    assert_eq!(actions.len(), 1);
    let (error, actions) = rtc_connect_error(RtcError::Timeout, TransferDirection::Send);
    assert!(matches!(error, AppError::Rtc(RtcError::Timeout)));
    assert!(actions.is_empty());
}

#[test]
fn chunk_size_is_limited() {
    let mut options = options();
    limit_chunk_size(&mut options);
    assert_eq!(options.chunk_size, 32_768);
    options.chunk_size = 5;
    limit_chunk_size(&mut options);
    assert_eq!(options.chunk_size, 5);
}
