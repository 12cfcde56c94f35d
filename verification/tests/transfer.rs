use std::collections::VecDeque;

use plenum::app::drive::{Event, Request, Seen, Sight};
use plenum::app::handshake::{AcceptWait, AcceptStep};
use plenum::app::listen_run::{ListenEvent, ListenRequest, ListenRun};
use plenum::app::handshake::Heard;
use plenum::app::name::{clean_name, file_name};
use plenum::app::receive_run::ReceiveRun;
use plenum::app::script::{rejection_message, Action};
use plenum::app::send::Outgoing;
use plenum::app::send_run::SendRun;
use plenum::app::types::AcceptDecision;
use plenum::app::{
    AppError, ConnectionState, LogLevel, PlenumCore, PlenumEvent, TransferDirection, TransferEvent,
    TransferMode, TransferOptions, TransferSummary,
};
use plenum::protocol::{Packet, PacketType};
use plenum::stream::ResumeCheckpoint;
use plenum::transport::{IoError, IoErrorKind, TransportError};

fn patterned_bytes(len: usize) -> Vec<u8> {
    (0..len).map(|idx| (idx % 251) as u8).collect()
}

fn same(packet: &Packet) -> Packet {
    Packet::new(packet.packet_type, packet.sequence_no, packet.payload.clone())
}

/// One end of a transfer in memory: a file, a window, a clock and the other end.
struct End {
    file: Vec<u8>,
    position: usize,
    chunk_size: usize,
    window_size: usize,
    checkpoint: Option<ResumeCheckpoint>,
    next_expected: u32,
    pending: VecDeque<Packet>,
    in_flight: Vec<u32>,
    inbox: VecDeque<Packet>,
    outbox: Vec<Packet>,
    closed: bool,
    peer_closed: bool,
    core: PlenumCore,
    relayed: Option<bool>,
    now_ns: u64,
    events: Vec<PlenumEvent>,
    result: Option<Result<TransferSummary, AppError>>,
}

impl End {
    fn new(file: Vec<u8>, options: &TransferOptions, relayed: Option<bool>) -> End {
        End {
            file,
            position: 0,
            chunk_size: options.chunk_size,
            window_size: options.window_size,
            checkpoint: None,
            next_expected: 0,
            pending: VecDeque::new(),
            in_flight: Vec::new(),
            inbox: VecDeque::new(),
            outbox: Vec::new(),
            closed: false,
            peer_closed: false,
            core: PlenumCore::new(),
            relayed,
            now_ns: 1,
            events: Vec::new(),
            result: None,
        }
    }

    fn seen(&mut self) -> Seen {
        self.now_ns += 1_000;
        self.core.look(Sight {
            now_ns: self.now_ns,
            now_ms: self.now_ns / 1_000_000,
            relayed: self.relayed,
            pending: self.pending.len(),
            in_flight: self.in_flight.len(),
            window_empty: self.pending.is_empty() && self.in_flight.is_empty(),
            next_expected: self.next_expected,
        })
    }

    fn perform(&mut self, actions: Vec<Action>) {
        for action in actions {
            match action {
                Action::Send(packet) | Action::TrySend(packet) | Action::SendIfPossible(packet) => {
                    self.outbox.push(packet)
                }
                Action::Close | Action::TryClose => self.closed = true,
                Action::Emit(event) => self.events.push(event),
                Action::Seek(offset) => self.position = offset as usize,
                Action::Write(bytes) => {
                    self.file.truncate(self.position);
                    self.file.extend_from_slice(&bytes);
                    self.position = self.file.len();
                }
                Action::Flush | Action::TryFlush | Action::OpenExisting => {}
                Action::CreateFile => {
                    self.file.clear();
                    self.position = 0;
                }
                Action::SaveCheckpoint(cp) | Action::TrySaveCheckpoint(cp) => {
                    self.checkpoint = Some(cp)
                }
                Action::ClearCheckpoint => self.checkpoint = None,
                Action::ExpectFrom(sequence) => self.next_expected = sequence,
                Action::Fail(error) => {
                    self.result = Some(Err(error));
                    return;
                }
                Action::Complete(summary) => {
                    self.result = Some(Ok(summary));
                    return;
                }
            }
        }
    }

    /// Carries a request out. Gives what has happened, or nothing if this end has to
    /// wait for the other one.
    fn carry_out(&mut self, request: Request) -> Option<Event> {
        match request {
            Request::Perform(actions) => {
                self.perform(actions);
                Some(Event::Done)
            }
            Request::Read => {
                let end = (self.position + self.chunk_size).min(self.file.len());
                let data = self.file[self.position..end].to_vec();
                self.position = end;
                Some(Event::Read(data))
            }
            Request::Receive => match self.inbox.pop_front() {
                Some(packet) => Some(Event::Packet(packet)),
                None if self.peer_closed => Some(Event::RecvFailed {
                    closed: true,
                    error: TransportError::CleanEof { operation: "read" },
                }),
                None => Some(Event::Nothing),
            },
            Request::Enqueue(packet) => {
                self.pending.push_back(packet);
                Some(Event::Done)
            }
            Request::Control(packet) => {
                self.in_flight.retain(|seq| *seq != packet.sequence_no);
                Some(Event::Done)
            }
            Request::SendWindow { .. } => {
                let mut sent = 0;
                while self.in_flight.len() < self.window_size {
                    let Some(packet) = self.pending.pop_front() else { break };
                    self.in_flight.push(packet.sequence_no);
                    self.outbox.push(packet);
                    sent += 1;
                }
                Some(Event::Sent(sent))
            }
            Request::Diagnostics => Some(Event::Done),
            Request::Sleep(ms) => {
                self.now_ns += ms * 1_000_000;
                Some(Event::Done)
            }
            Request::Prepare { name, .. } => Some(Event::Prepared {
                path: format!("{name}.plenum.resume.json"),
                loaded: self.checkpoint.clone(),
                chunk_size: self.chunk_size,
            }),
            Request::ResetDecision => {
                self.core.control().reset_decision();
                Some(Event::Done)
            }
            Request::Window(packet) => {
                let ack = Packet::new(PacketType::Ack, packet.sequence_no, vec![]);
                let mut payloads = Vec::new();
                if packet.sequence_no == self.next_expected {
                    self.next_expected += 1;
                    payloads.push(packet.payload);
                }
                Some(Event::Windowed { controls: vec![ack], payloads })
            }
            Request::Finished => None,
        }
    }
}

/// Runs both ends in turn until both have a result. `watch` sees both ends after each
/// step.
fn run_both(
    sender: &mut End,
    mut send: SendRun,
    receiver: &mut End,
    mut receive: ReceiveRun,
    mut watch: impl FnMut(&mut End, &mut End),
) {
    let mut sender_event = Some(Event::Done);
    let mut receiver_event = Some(Event::Done);
    for _ in 0..2_000_000 {
        if sender.result.is_some() && receiver.result.is_some() {
            return;
        }
        if sender.result.is_none() {
            let seen = sender.seen();
            let request = send.step(sender_event.take().unwrap(), &seen);
            sender_event = sender.carry_out(request);
            receiver.inbox.extend(sender.outbox.drain(..));
            receiver.peer_closed = sender.closed;
        }
        if receiver.result.is_none() {
            let seen = receiver.seen();
            let request = receive.step(receiver_event.take().unwrap(), &seen);
            receiver_event = receiver.carry_out(request);
            sender.inbox.extend(receiver.outbox.drain(..));
            sender.peer_closed = receiver.closed;
        }
        watch(sender, receiver);
    }
    panic!("the transfer does not end");
}

struct Outcome {
    sender: End,
    receiver: End,
}

impl Outcome {
    fn sent(&self) -> &TransferSummary {
        match &self.sender.result {
            Some(Ok(summary)) => summary,
            _ => panic!("send should succeed"),
        }
    }

    fn received(&self) -> &TransferSummary {
        match &self.receiver.result {
            Some(Ok(summary)) => summary,
            _ => panic!("receive should succeed"),
        }
    }
}

fn transfer(
    payload: &[u8],
    options: TransferOptions,
    relayed: Option<bool>,
    auto_accept: bool,
    prepare: impl FnOnce(&mut End),
    watch: impl FnMut(&mut End, &mut End),
) -> Outcome {
    let mut sender = End::new(payload.to_vec(), &options, relayed);
    let mut receiver = End::new(Vec::new(), &options, relayed);
    prepare(&mut receiver);
    let file = Outgoing::new("payload.bin", payload.len() as u64, Some("127.0.0.1:9000"), &options);
    let send = SendRun::new(file, None, Some("test-sender"));
    let receive = ReceiveRun::new("127.0.0.1:50000", auto_accept, Some("test-receiver"), '/', 1, 0);
    run_both(&mut sender, send, &mut receiver, receive, watch);
    Outcome { sender, receiver }
}

fn transfer_roundtrip(payload_len: usize, options: TransferOptions) -> Vec<PlenumEvent> {
    let payload = patterned_bytes(payload_len);
    let outcome = transfer(&payload, options, None, true, |_| {}, |_, _| {});
    let send_summary = outcome.sent();
    let receive_summary = outcome.received();
    assert_eq!(send_summary.direction, TransferDirection::Send);
    assert_eq!(send_summary.mode, TransferMode::Lan);
    assert_eq!(send_summary.total_bytes, payload_len as u64);
    assert_eq!(receive_summary.transferred_bytes, payload_len as u64);
    assert_eq!(receive_summary.peer_name.as_deref(), Some("test-sender"));
    assert_eq!(send_summary.peer_name.as_deref(), Some("test-receiver"));
    assert_eq!(outcome.receiver.file.len(), payload.len());
    assert!(outcome.receiver.file == payload, "received bytes must match the source");
    assert!(outcome.receiver.checkpoint.is_none());
    let mut events = outcome.receiver.events;
    events.extend(outcome.sender.events);
    events
}

fn streaming_diag_count(events: &[PlenumEvent]) -> usize {
    events
        .iter()
        .filter(|event| match event {
            PlenumEvent::Log { message, .. } => message.contains("streaming mode enabled"),
            _ => false,
        })
        .count()
}

#[test]
fn lan_transfer_streams_large_file_with_cumulative_acks() {
    let events = transfer_roundtrip(
        5 * 1024 * 1024,
        TransferOptions { chunk_size: 256 * 1024, window_size: 64, timeout_ticks: 15_000 },
    );
    assert_eq!(
        streaming_diag_count(&events),
        2,
        "both sender and receiver should negotiate streaming mode"
    );
}

#[test]
fn lan_transfer_streams_small_file_via_finish_ack() {
    let events = transfer_roundtrip(
        100 * 1024,
        TransferOptions { chunk_size: 32 * 1024, window_size: 64, timeout_ticks: 15_000 },
    );
    assert_eq!(
        streaming_diag_count(&events),
        2,
        "both sender and receiver should negotiate streaming mode"
    );
}

#[test]
fn lan_transfer_e2e_resumed_summary_correct_baseline() {
    let payload_len = 1024 * 1024;
    let chunk_size = 256 * 1024;
    let payload = patterned_bytes(payload_len);
    let partial = payload[0..chunk_size].to_vec();
    let mut cp = ResumeCheckpoint::new("payload.bin", payload_len as u64, chunk_size);
    cp.update(1, chunk_size as u64);

    let outcome = transfer(
        &payload,
        TransferOptions { chunk_size, window_size: 64, timeout_ticks: 15_000 },
        None,
        true,
        |receiver| {
            receiver.file = partial;
            receiver.checkpoint = Some(cp);
        },
        |_, _| {},
    );

    let receive_summary = outcome.received();
    assert_eq!(receive_summary.resumed_bytes, chunk_size as u64);
    assert_eq!(receive_summary.total_bytes, payload_len as u64);
    assert_eq!(receive_summary.transferred_bytes, payload_len as u64);
    let bytes_transferred_this_session =
        receive_summary.transferred_bytes - receive_summary.resumed_bytes;
    assert_eq!(bytes_transferred_this_session, (payload_len - chunk_size) as u64);
    assert_eq!(outcome.sent().resumed_bytes, chunk_size as u64);

    assert_eq!(outcome.receiver.file.len(), payload.len());
    assert!(outcome.receiver.file == payload);
}

#[test]
fn lan_transfer_cancellation_emits_cancelled_and_no_error_log() {
    let payload = patterned_bytes(10 * 1024 * 1024);
    let outcome = transfer(
        &payload,
        TransferOptions { chunk_size: 64 * 1024, window_size: 16, timeout_ticks: 15_000 },
        None,
        true,
        |_| {},
        |sender, _| {
            // Once the transfer has started, it is cancelled.
            if sender.events.iter().any(|event| {
                matches!(event, PlenumEvent::Transfer(TransferEvent::Started { .. }))
            }) {
                sender.core.control().cancel();
            }
        },
    );

    assert!(
        matches!(outcome.sender.result, Some(Err(AppError::Cancelled))),
        "send_file should return AppError::Cancelled"
    );
    let events = &outcome.sender.events;
    let has_cancelled = events
        .iter()
        .any(|e| matches!(e, PlenumEvent::Transfer(TransferEvent::Cancelled { .. })));
    let has_failed = events
        .iter()
        .any(|e| matches!(e, PlenumEvent::Transfer(TransferEvent::Failed { .. })));
    let has_error_log = events.iter().any(|e| match e {
        PlenumEvent::Log { level, message } => {
            *level == LogLevel::Error && message.to_lowercase().contains("cancelled")
        }
        _ => false,
    });
    assert!(has_cancelled, "sender should emit Cancelled event on cancel");
    assert!(!has_failed, "sender should not emit Failed on expected cancellation");
    assert!(!has_error_log, "sender should not emit Error log for expected cancellation");
    // The receiver hears of it.
    match outcome.receiver.result {
        Some(Err(AppError::Rejected(message))) => {
            assert_eq!(message, "the peer cancelled the transfer")
        }
        _ => panic!("the receiver must be told"),
    }
}

#[test]
fn lan_transfer_receiver_cancellation_saves_checkpoint() {
    let payload = patterned_bytes(10 * 1024 * 1024);
    let outcome = transfer(
        &payload,
        TransferOptions { chunk_size: 64 * 1024, window_size: 16, timeout_ticks: 15_000 },
        None,
        true,
        |_| {},
        |_, receiver| {
            if receiver.events.iter().any(|event| {
                matches!(event, PlenumEvent::Transfer(TransferEvent::Progress { .. }))
            }) {
                receiver.core.control().cancel();
            }
        },
    );
    assert!(matches!(outcome.receiver.result, Some(Err(AppError::Cancelled))));
    let checkpoint = outcome.receiver.checkpoint.as_ref();
    assert!(checkpoint.is_some(), "cancelled receive should save resume checkpoint");
    let checkpoint = checkpoint.unwrap();
    assert_eq!(checkpoint.bytes_written, outcome.receiver.file.len() as u64);
    assert!(checkpoint.bytes_written > 0);
    assert!(payload.starts_with(&outcome.receiver.file));
}

#[test]
fn relayed_transfer_runs_over_the_window() {
    let payload = patterned_bytes(300_000);
    let outcome = transfer(
        &payload,
        TransferOptions { chunk_size: 1024, window_size: 8, timeout_ticks: 1 },
        Some(true),
        true,
        |_| {},
        |_, _| {},
    );
    assert_eq!(outcome.sent().mode, TransferMode::Relay);
    assert_eq!(outcome.received().mode, TransferMode::Relay);
    assert!(outcome.receiver.file == payload);
    assert_eq!(streaming_diag_count(&outcome.sender.events), 0);
    assert_eq!(streaming_diag_count(&outcome.receiver.events), 0);
    // Progress never goes over the size of the file, and comes to it.
    let progress: Vec<u64> = outcome
        .sender
        .events
        .iter()
        .filter_map(|event| match event {
            PlenumEvent::Transfer(TransferEvent::Progress { transferred_bytes, total_bytes, .. }) => {
                assert!(transferred_bytes <= total_bytes);
                Some(*transferred_bytes)
            }
            _ => None,
        })
        .collect();
    assert_eq!(progress.last(), Some(&300_000));
    assert!(matches!(
        outcome.sender.events.last(),
        Some(PlenumEvent::Transfer(TransferEvent::StateChanged {
            state: ConnectionState::Closed,
            ..
        }))
    ));
}

#[test]
fn direct_transfer_is_told_so() {
    let payload = patterned_bytes(10);
    let options = TransferOptions { chunk_size: 4, window_size: 2, timeout_ticks: 1 };
    let outcome = transfer(&payload, options, Some(false), true, |_| {}, |_, _| {});
    assert_eq!(outcome.sent().mode, TransferMode::Direct);
    assert!(outcome.receiver.file == payload);
}

#[test]
fn empty_file_is_transferred() {
    for relayed in [None, Some(true)] {
        let options = TransferOptions { chunk_size: 4, window_size: 2, timeout_ticks: 1 };
        let outcome = transfer(&[], options, relayed, true, |_| {}, |_, _| {});
        assert_eq!(outcome.sent().transferred_bytes, 0);
        assert_eq!(outcome.received().transferred_bytes, 0);
        assert!(outcome.receiver.file.is_empty());
    }
}

#[test]
fn checkpoint_of_another_file_is_thrown_away() {
    let payload = patterned_bytes(1000);
    let mut cp = ResumeCheckpoint::new("payload.bin", 999, 100);
    cp.update(1, 100);
    let options = TransferOptions { chunk_size: 100, window_size: 4, timeout_ticks: 1 };
    let outcome = transfer(
        &payload,
        options,
        None,
        true,
        |receiver| {
            receiver.file = vec![9; 100];
            receiver.checkpoint = Some(cp);
        },
        |_, _| {},
    );
    assert_eq!(outcome.received().resumed_bytes, 0);
    assert!(outcome.receiver.file == payload);
}

#[test]
fn user_accepts_or_declines() {
    let payload = patterned_bytes(1000);
    let options = TransferOptions { chunk_size: 100, window_size: 4, timeout_ticks: 1 };
    let decide = |decision: AcceptDecision| {
        move |_: &mut End, receiver: &mut End| {
            if receiver.result.is_none() && receiver.file.is_empty() {
                match decision {
                    AcceptDecision::Accepted => receiver.core.control().accept(),
                    AcceptDecision::Declined => receiver.core.control().decline(),
                    AcceptDecision::Pending => receiver.core.control().reset_decision(),
                }
            }
        }
    };
    let outcome =
        transfer(&payload, options, None, false, |_| {}, decide(AcceptDecision::Accepted));
    assert!(outcome.receiver.file == payload);

    let outcome =
        transfer(&payload, options, None, false, |_| {}, decide(AcceptDecision::Declined));
    match outcome.receiver.result {
        Some(Err(AppError::Rejected(message))) => assert_eq!(message, "transfer declined"),
        _ => panic!("the receiver has declined"),
    }
    match outcome.sender.result {
        Some(Err(AppError::Rejected(message))) => {
            assert_eq!(message, "the receiver declined the transfer")
        }
        _ => panic!("the sender must be told"),
    }
}

#[test]
fn user_who_does_not_answer_declines() {
    let payload = patterned_bytes(10);
    let options = TransferOptions { chunk_size: 100, window_size: 4, timeout_ticks: 1 };
    let outcome = transfer(&payload, options, None, false, |_| {}, |_, _| {});
    match outcome.receiver.result {
        Some(Err(AppError::Rejected(message))) => {
            assert_eq!(message, "no decision within 120s; transfer declined")
        }
        _ => panic!("the receiver must give up"),
    }
}

fn seen(now_ns: u64) -> Seen {
    Seen {
        now_ns,
        now_ms: now_ns / 1_000_000,
        cancelled: false,
        decision: AcceptDecision::Pending,
        relayed: None,
        pending: 0,
        in_flight: 0,
        window_empty: true,
        next_expected: 0,
    }
}

fn failure(request: Request) -> AppError {
    match request {
        Request::Perform(mut actions) => match actions.pop() {
            Some(Action::Fail(error)) => error,
            _ => panic!("must end with a failure"),
        },
        _ => panic!("must perform a script"),
    }
}

#[test]
fn silent_sender_stalls_the_receiver() {
    let mut run = ReceiveRun::new("peer", true, None, '/', 0, 0);
    let _ = run.step(Event::Done, &seen(0));
    let _ = run.step(Event::Done, &seen(0));
    let _ = run.step(Event::Done, &seen(0));
    assert!(matches!(run.step(Event::Done, &seen(0)), Request::Receive));
    assert!(matches!(run.step(Event::Nothing, &seen(44_999_999_999)), Request::Perform(_)));
    let _ = run.step(Event::Done, &seen(44_999_999_999));
    let _ = run.step(Event::Done, &seen(44_999_999_999));
    match failure(run.step(Event::Nothing, &seen(45_000_000_000))) {
        AppError::Stalled(message) => assert_eq!(message, "no packets from sender for 45s"),
        _ => panic!("must stall"),
    }
}

#[test]
fn lost_connection_is_no_complete_file() {
    let mut run = ReceiveRun::new("peer", true, None, '/', 0, 0);
    for _ in 0..4 {
        let _ = run.step(Event::Done, &seen(0));
    }
    let payload = plenum::app::payload::encode_start_payload(10, "dir/a.bin", Some("s"));
    match run.step(Event::Packet(Packet::new(PacketType::Start, 0, payload)), &seen(0)) {
        Request::Prepare { name, size } => {
            assert_eq!(name, "a.bin");
            assert_eq!(size, 10);
        }
        _ => panic!("the file must be prepared"),
    }
    let prepared = Event::Prepared {
        loaded: None,
        path: "a.bin.plenum.resume.json".to_string(),
        chunk_size: 4,
    };
    match run.step(prepared, &seen(0)) {
        Request::Perform(actions) => {
            assert!(matches!(actions[0], Action::CreateFile));
            assert!(matches!(actions[1], Action::SaveCheckpoint(_)));
            assert_eq!(actions.len(), 2);
        }
        _ => panic!("the file must be created"),
    }
    // The offer is told, accepted, started, and the next turn looks for a frame.
    for _ in 0..6 {
        let _ = run.step(Event::Done, &seen(0));
    }
    let error = TransportError::CleanEof { operation: "read" };
    match failure(run.step(Event::RecvFailed { closed: true, error }, &seen(0))) {
        AppError::Stalled(message) => assert_eq!(
            message,
            "connection closed before transfer completed (0 of 10 bytes received)"
        ),
        _ => panic!("must stall"),
    }
}

/// A receiver that was offered `size` bytes under a name and looks for the next frame,
/// and what it has told.
fn offered(announced: &str, size: u64) -> (ReceiveRun, Vec<PlenumEvent>, String) {
    let mut run = ReceiveRun::new("peer", true, None, '/', 0, 0);
    for _ in 0..4 {
        let _ = run.step(Event::Done, &seen(0));
    }
    let payload = plenum::app::payload::encode_start_payload(size, announced, None);
    let start = Packet::new(PacketType::Start, 0, payload);
    let asked = match run.step(Event::Packet(start), &seen(0)) {
        Request::Prepare { name, .. } => name,
        _ => panic!("the file must be prepared"),
    };
    let mut events = Vec::new();
    let mut event =
        Event::Prepared { loaded: None, path: format!("{asked}.cp"), chunk_size: 4 };
    loop {
        match run.step(event, &seen(0)) {
            Request::Perform(actions) => {
                events.extend(actions.into_iter().filter_map(|action| match action {
                    Action::Emit(event) => Some(event),
                    _ => None,
                }));
            }
            Request::Receive => return (run, events, asked),
            _ => {}
        }
        event = Event::Done;
    }
}

fn data(run: &mut ReceiveRun, sequence: u32, bytes: &[u8]) -> Vec<Action> {
    let packet = Packet::new(PacketType::Data, sequence, bytes.to_vec());
    assert!(matches!(run.step(Event::Packet(packet), &seen(0)), Request::Window(_)));
    let windowed = Event::Windowed { controls: vec![], payloads: vec![bytes.to_vec()] };
    let at = Seen { next_expected: sequence + 1, ..seen(0) };
    let actions = match run.step(windowed, &at) {
        Request::Perform(actions) => actions,
        _ => panic!("the data must be written"),
    };
    while !matches!(run.step(Event::Done, &seen(0)), Request::Receive) {}
    actions
}

fn finish(run: &mut ReceiveRun) -> (Vec<Action>, Vec<Action>) {
    let packet = Packet::new(PacketType::Finish, 9, vec![]);
    let Request::Perform(first) = run.step(Event::Packet(packet), &seen(0)) else {
        panic!("the file must be finished")
    };
    let Request::Perform(last) = run.step(Event::Done, &seen(0)) else {
        panic!("the transfer must be concluded")
    };
    (first, last)
}

#[test]
fn transfer_that_is_cut_short_fails_and_keeps_its_checkpoint() {
    // The sender is done at once.
    let (mut run, _, _) = offered("a.bin", 5);
    let (first, mut last) = finish(&mut run);
    assert!(!first.iter().any(|action| matches!(action, Action::ClearCheckpoint)));
    assert!(!last.iter().any(|action| matches!(action, Action::Complete(_))));
    match last.pop() {
        Some(Action::Fail(AppError::Stalled(message))) => {
            assert_eq!(message, "transfer ended with 0 of 5 bytes received")
        }
        _ => panic!("must fail"),
    }
    // The sender is done too early, and too late.
    for (bytes, count) in [(&b"abc"[..], 3), (&b"abcdefg"[..], 7)] {
        let (mut run, _, _) = offered("a.bin", 5);
        let _ = data(&mut run, 0, bytes);
        let (first, mut last) = finish(&mut run);
        assert!(!first.iter().any(|action| matches!(action, Action::ClearCheckpoint)));
        match last.pop() {
            Some(Action::Fail(AppError::Stalled(message))) => {
                assert_eq!(message, format!("transfer ended with {count} of 5 bytes received"))
            }
            _ => panic!("must fail"),
        }
    }
    // A connection that is closed without a reason is no end of the file either.
    let (mut run, _, _) = offered("a.bin", 5);
    let _ = data(&mut run, 0, b"abc");
    let close = Packet::new(PacketType::Close, 0, vec![]);
    match failure(run.step(Event::Packet(close), &seen(0))) {
        AppError::Stalled(message) => assert_eq!(
            message,
            "connection closed before transfer completed (3 of 5 bytes received)"
        ),
        _ => panic!("must fail"),
    }
    // The whole file completes the transfer.
    let (mut run, _, _) = offered("a.bin", 5);
    let _ = data(&mut run, 0, b"abcde");
    let (first, last) = finish(&mut run);
    assert!(first.iter().any(|action| matches!(action, Action::ClearCheckpoint)));
    match last.last() {
        Some(Action::Complete(summary)) => {
            assert!(summary.resumed_bytes <= summary.transferred_bytes);
            assert_eq!(summary.transferred_bytes, summary.total_bytes);
            assert_eq!(summary.total_bytes, 5);
        }
        _ => panic!("must complete"),
    }
}

#[test]
fn announced_name_is_cleaned() {
    let (mut run, events, asked) = offered("../../evil.txt", 2);
    assert_eq!(asked, "evil.txt");
    assert!(events.iter().any(|event| matches!(
        event,
        PlenumEvent::Transfer(TransferEvent::IncomingRequest { file_name, .. })
            if file_name == "evil.txt"
    )));
    assert!(events.iter().any(|event| matches!(
        event,
        PlenumEvent::Transfer(TransferEvent::Started { file_name, .. })
            if file_name == "evil.txt"
    )));
    let actions = data(&mut run, 0, b"ok");
    assert!(actions.iter().any(|action| matches!(action, Action::Write(bytes) if bytes == b"ok")));
    match finish(&mut run).1.last() {
        Some(Action::Complete(summary)) => assert_eq!(summary.file_name, "evil.txt"),
        _ => panic!("must complete"),
    }
    assert_eq!(offered("..", 1).2, "received_file");

    let unix = |path: &str| clean_name(file_name(path, '/'), '/');
    for path in ["a.txt", "/a.txt", "x/a.txt/", "x//a.txt/.", "./a.txt/./", "../x/../a.txt"] {
        assert_eq!(unix(path), "a.txt");
        let name = std::path::Path::new(path).file_name().unwrap();
        assert_eq!(name.to_str(), Some("a.txt"));
    }
    for path in ["", "/", ".", "./", "..", "a/..", "//./"] {
        assert_eq!(file_name(path, '/'), None);
        assert!(std::path::Path::new(path).file_name().is_none());
        assert_eq!(unix(path), "received_file");
    }
    assert_eq!(unix("x\\..a"), "x\\..a");
    assert_eq!(unix("x/..a."), "..a.");
    let backslash = |path: &str| clean_name(file_name(path, '\\'), '\\');
    assert_eq!(backslash("..\\..\\evil.txt"), "evil.txt");
    assert_eq!(backslash("x\\y/z"), "z");
    assert_eq!(backslash("C:evil.txt"), "evil.txt");
    assert_eq!(backslash("c:\\x\\evil.txt"), "evil.txt");
    // A colon that ends no drive belongs to the name.
    assert_eq!(backslash("notes:1.txt"), "notes:1.txt");
    assert_eq!(backslash("1:x"), "1:x");
    assert_eq!(unix("C:x"), "C:x");
    // A drive, and a share of a server, are no parts.
    assert_eq!(file_name("C:", '\\'), None);
    assert_eq!(file_name("C:\\", '\\'), None);
    assert_eq!(file_name("\\\\server\\share", '\\'), None);
    assert_eq!(file_name("\\\\server\\share\\", '\\'), None);
    assert_eq!(backslash("\\\\server\\share\\a.txt"), "a.txt");
    assert_eq!(backslash("\\\\server"), "server");
    assert_eq!(backslash("\\\\server\\"), "server");
    assert_eq!(unix("//server/share"), "share");
    // A part with a drive of its own would lead out of the folder.
    assert_eq!(file_name("x\\C:evil", '\\').as_deref(), Some("C:evil"));
    assert_eq!(backslash("x\\C:evil"), "received_file");
}

#[test]
fn order_and_repeats_of_packets_do_not_matter() {
    // A window over the arrivals, which hands each chunk on once and in order.
    let chunks: Vec<Vec<u8>> = vec![b"ab".to_vec(), b"cd".to_vec(), b"e".to_vec()];
    let mut files = Vec::new();
    for arrivals in [vec![0u32, 1, 2], vec![2, 0, 2, 1, 0], vec![1, 1, 2, 0]] {
        let (mut run, _, _) = offered("a.bin", 5);
        let mut file: Vec<u8> = Vec::new();
        let mut come = [false; 3];
        let mut next = 0usize;
        for sequence in arrivals {
            let bytes = chunks[sequence as usize].clone();
            let packet = Packet::new(PacketType::Data, sequence, bytes);
            assert!(matches!(run.step(Event::Packet(packet), &seen(0)), Request::Window(_)));
            come[sequence as usize] = true;
            let mut payloads = Vec::new();
            while next < 3 && come[next] {
                payloads.push(chunks[next].clone());
                next += 1;
            }
            let at = Seen { next_expected: next as u32, ..seen(0) };
            let windowed = Event::Windowed { controls: vec![], payloads };
            if let Request::Perform(actions) = run.step(windowed, &at) {
                for action in actions {
                    if let Action::Write(bytes) = action {
                        file.extend(bytes);
                    }
                }
            }
            while !matches!(run.step(Event::Done, &seen(0)), Request::Receive) {}
        }
        match finish(&mut run).1.last() {
            Some(Action::Complete(summary)) => assert_eq!(summary.transferred_bytes, 5),
            _ => panic!("must complete"),
        }
        files.push(file);
    }
    assert!(files.iter().all(|file| file == b"abcde"));
}

#[test]
fn broken_transport_fails_the_receiver() {
    let mut run = ReceiveRun::new("peer", true, None, '/', 0, 0);
    for _ in 0..4 {
        let _ = run.step(Event::Done, &seen(0));
    }
    let error = TransportError::DeadPath;
    assert!(matches!(
        failure(run.step(Event::RecvFailed { closed: false, error }, &seen(0))),
        AppError::Transport(TransportError::DeadPath)
    ));
}

#[test]
fn garbled_frames_fail_the_transfer() {
    let mut run = ReceiveRun::new("peer", true, None, '/', 0, 0);
    for _ in 0..4 {
        let _ = run.step(Event::Done, &seen(0));
    }
    match failure(run.step(Event::Garbled("bad magic".to_string()), &seen(0))) {
        AppError::Protocol(message) => assert_eq!(message, "bad magic"),
        _ => panic!("must fail"),
    }
}

#[test]
fn driver_out_of_step_fails_the_transfer() {
    let mut run = ReceiveRun::new("peer", true, None, '/', 0, 0);
    assert!(matches!(
        failure(run.step(Event::Sent(1), &seen(0))),
        AppError::Protocol(_)
    ));
}

#[test]
fn receiver_that_does_not_answer_stalls_the_sender() {
    let options = TransferOptions { chunk_size: 4, window_size: 2, timeout_ticks: 1 };
    let mut run = SendRun::new(Outgoing::new("a", 1, None, &options), Some(" pin "), None);
    match run.step(Event::Done, &seen(0)) {
        Request::Perform(actions) => match &actions[1] {
            Action::Send(packet) => {
                assert_eq!(packet.packet_type, PacketType::Auth);
                assert_eq!(packet.payload, b"pin");
            }
            _ => panic!("the code goes first"),
        },
        _ => panic!("the file must be offered"),
    }
    assert!(matches!(run.step(Event::Done, &seen(0)), Request::Receive));
    assert!(matches!(run.step(Event::Nothing, &seen(0)), Request::Sleep(20)));
    match failure(run.step(Event::Done, &seen(150_000_000_000))) {
        AppError::Stalled(message) => {
            assert_eq!(message, "receiver did not answer the transfer offer within 150s")
        }
        _ => panic!("must stall"),
    }
}

fn accepted_run(relayed: Option<bool>, streams: bool) -> SendRun {
    let options = TransferOptions { chunk_size: 4, window_size: 2, timeout_ticks: 1 };
    let mut run = SendRun::new(Outgoing::new("a", 100, None, &options), None, None);
    let at = Seen { relayed, ..seen(0) };
    let _ = run.step(Event::Done, &at);
    let _ = run.step(Event::Done, &at);
    if streams {
        let magic = b"PLENUM_STREAM_V1".to_vec();
        let _ = run.step(Event::Packet(Packet::new(PacketType::Resume, 0, magic)), &at);
    }
    let _ = run.step(Event::Packet(Packet::new(PacketType::Accept, 0, vec![])), &at);
    run
}

#[test]
fn silent_receiver_stalls_a_streaming_sender() {
    let mut run = accepted_run(None, true);
    assert!(matches!(run.step(Event::Done, &seen(0)), Request::Read));
    match run.step(Event::Read(vec![1, 2, 3, 4]), &seen(0)) {
        Request::Perform(actions) => match &actions[0] {
            Action::Send(packet) => {
                assert_eq!(same(packet), Packet::new(PacketType::Data, 0, vec![1, 2, 3, 4]));
            }
            _ => panic!("the chunk must be sent"),
        },
        _ => panic!("the chunk must be sent"),
    }
    let late = seen(30_000_000_000);
    let _ = run.step(Event::Done, &late);
    assert!(matches!(run.step(Event::Done, &late), Request::Diagnostics));
    match failure(run.step(Event::Done, &late)) {
        AppError::Stalled(message) => {
            assert_eq!(message, "no packets from receiver for 30s (4 bytes unacknowledged)")
        }
        _ => panic!("must stall"),
    }
}

#[test]
fn streaming_sender_repeats_its_finish() {
    let mut run = accepted_run(None, true);
    assert!(matches!(run.step(Event::Done, &seen(0)), Request::Read));
    match run.step(Event::Read(vec![]), &seen(0)) {
        Request::Perform(actions) => {
            assert_eq!(actions.len(), 1);
            match &actions[0] {
                Action::Send(packet) => assert_eq!(packet.packet_type, PacketType::Finish),
                _ => panic!("the end must be told"),
            }
        }
        _ => panic!("the end must be told"),
    }
    assert!(matches!(run.step(Event::Done, &seen(0)), Request::Receive));
    let later = seen(5_000_000_000);
    let _ = run.step(Event::Nothing, &later);
    assert!(matches!(run.step(Event::Done, &later), Request::Diagnostics));
    match run.step(Event::Done, &later) {
        Request::Perform(actions) => {
            assert_eq!(actions.len(), 1);
            match &actions[0] {
                Action::SendIfPossible(packet) => {
                    assert_eq!(packet.packet_type, PacketType::Finish)
                }
                _ => panic!("the end must be told again"),
            }
        }
        _ => panic!("the end must be told again"),
    }
}

#[test]
fn silent_receiver_stalls_a_windowed_sender() {
    let mut run = accepted_run(Some(false), true);
    let at = Seen { relayed: Some(false), ..seen(0) };
    assert!(matches!(run.step(Event::Done, &at), Request::Read));
    assert!(matches!(run.step(Event::Read(vec![7]), &at), Request::Enqueue(_)));
    // The window has room for twice its length.
    let full = Seen { pending: 4, ..at };
    assert!(matches!(run.step(Event::Done, &full), Request::Receive));
    let _ = run.step(Event::Nothing, &full);
    assert!(matches!(run.step(Event::Done, &full), Request::SendWindow { now_ms: 0 }));
    let _ = run.step(Event::Sent(1), &full);
    assert!(matches!(run.step(Event::Done, &full), Request::Diagnostics));
    let late = Seen { now_ns: 30_000_000_000, in_flight: 1, pending: 3, window_empty: false, ..at };
    match failure(run.step(Event::Done, &late)) {
        AppError::Stalled(message) => {
            assert_eq!(message, "no packets from receiver for 30s (1 in flight, 3 pending)")
        }
        _ => panic!("must stall"),
    }
}

#[test]
fn cancelled_windowed_sender_stops_at_the_next_turn() {
    let mut run = accepted_run(Some(true), false);
    let at = Seen { relayed: Some(true), ..seen(0) };
    assert!(matches!(run.step(Event::Done, &at), Request::Read));
    assert!(matches!(run.step(Event::Read(vec![7]), &at), Request::Enqueue(_)));
    let full = Seen { pending: 4, cancelled: true, window_empty: false, ..at };
    assert!(matches!(run.step(Event::Done, &full), Request::Receive));
    let _ = run.step(Event::Nothing, &full);
    assert!(matches!(run.step(Event::Done, &full), Request::SendWindow { now_ms: 0 }));
    let _ = run.step(Event::Sent(1), &full);
    assert!(matches!(run.step(Event::Done, &full), Request::Diagnostics));
    match run.step(Event::Done, &full) {
        Request::Perform(actions) => {
            assert_eq!(actions.len(), 4);
            match &actions[0] {
                Action::TrySend(packet) => {
                    let told = Packet::new(PacketType::Close, 1, b"cancelled".to_vec());
                    assert_eq!(same(packet), told);
                }
                _ => panic!("the receiver is told"),
            }
            assert!(matches!(actions[1], Action::TryClose));
            assert!(matches!(actions[3], Action::Fail(AppError::Cancelled)));
        }
        _ => panic!("the session must stop"),
    }
}

#[test]
fn reasons_are_explained() {
    assert_eq!(rejection_message("declined"), "the receiver declined the transfer");
    assert_eq!(rejection_message("pin_rejected"), "the receiver rejected the pairing code");
    assert_eq!(rejection_message("cancelled"), "the peer cancelled the transfer");
    assert_eq!(rejection_message("x"), "the peer closed the connection (x)");
}

#[test]
fn resume_offset_needs_eight_bytes() {
    let mut wait = AcceptWait::new(TransferDirection::Send, 0);
    let resume = |payload: Vec<u8>| Packet::new(PacketType::Resume, 0, payload);
    assert!(matches!(wait.on_packet(resume(77u64.to_be_bytes().to_vec())), AcceptStep::Wait));
    assert_eq!(wait.resume_bytes, 77);
    assert!(matches!(wait.on_packet(resume(b"PLENUM_STREAM_V1".to_vec())), AcceptStep::Wait));
    assert!(wait.receiver_streams);
    assert_eq!(wait.resume_bytes, 77);
    assert!(matches!(wait.on_packet(resume(vec![1, 2, 3])), AcceptStep::Wait));
    assert_eq!(wait.resume_bytes, 0);
}

#[test]
fn only_the_pairing_code_opens() {
    let auth = |text: &str| {
        ListenEvent::Heard(Heard::Packet(Packet::new(
            PacketType::Auth,
            0,
            text.as_bytes().to_vec(),
        )))
    };
    let mut run = ListenRun::new(true, "ABC234");
    assert!(matches!(run.step(ListenEvent::Done, false, 0), ListenRequest::Accept));
    let busy = IoError { kind: IoErrorKind::WouldBlock, message: String::new() };
    assert!(matches!(
        run.step(ListenEvent::AcceptFailed(busy), false, 0),
        ListenRequest::Sleep(25)
    ));
    assert!(matches!(run.step(ListenEvent::Done, false, 0), ListenRequest::Accept));
    assert!(matches!(
        run.step(ListenEvent::Connected("eve".to_string()), false, 0),
        ListenRequest::Receive
    ));
    match run.step(auth("ABC235"), false, 0) {
        ListenRequest::Perform(actions) => match &actions[0] {
            Action::Emit(PlenumEvent::Log { message, .. }) => {
                assert_eq!(message, "rejected connection from eve: invalid PIN")
            }
            _ => panic!("the refusal is logged"),
        },
        _ => panic!("must be turned away"),
    }
    assert!(matches!(run.step(ListenEvent::Done, false, 0), ListenRequest::Accept));
    let _ = run.step(ListenEvent::Connected("bob".to_string()), false, 0);
    assert!(matches!(
        run.step(ListenEvent::Heard(Heard::Nothing), false, 9_999_999_999),
        ListenRequest::Sleep(10)
    ));
    assert!(matches!(run.step(ListenEvent::Done, false, 0), ListenRequest::Receive));
    assert!(matches!(run.step(auth(" abc234\n"), false, 0), ListenRequest::Perform(_)));
    assert!(matches!(run.step(ListenEvent::Done, false, 0), ListenRequest::Serve));
}

#[test]
fn listening_ends_when_cancelled_or_broken() {
    let mut run = ListenRun::new(false, "");
    match run.step(ListenEvent::Done, true, 0) {
        ListenRequest::Perform(actions) => {
            assert!(matches!(actions[1], Action::Fail(AppError::Cancelled)))
        }
        _ => panic!("must end"),
    }
    let mut run = ListenRun::new(false, "");
    let _ = run.step(ListenEvent::Done, false, 0);
    let broken = IoError { kind: IoErrorKind::PermissionDenied, message: "no".to_string() };
    match run.step(ListenEvent::AcceptFailed(broken), false, 0) {
        ListenRequest::Perform(actions) => {
            assert!(matches!(actions[0], Action::Fail(AppError::Io(_))))
        }
        _ => panic!("must end"),
    }
}
