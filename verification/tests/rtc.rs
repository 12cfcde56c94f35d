use std::time::Duration;

use plenum::rtc::transport::{
    ChannelEvent, ConnectEvent, ConnectStep, OutboundPump, PumpAction, PumpEvent,
};
use plenum::rtc::{RtcError, RtcTransport};
use plenum::signaling::IceServer;
use plenum::transport::TransportError;

#[test]
fn connections_are_asked_for_as_named() {
    let servers = || vec![IceServer::new(vec!["stun:x".to_string()])];
    let timeout = Duration::from_secs(7);
    let offer = RtcTransport::connect_as_offerer("r", "s", "p", servers(), timeout);
    assert!(offer.is_offerer && !offer.force_relay && !offer.cancellable);
    assert_eq!(offer.relay_url, "r");
    assert_eq!(offer.session_id, "s");
    assert_eq!(offer.my_peer_id, "p");
    assert_eq!(offer.ice_servers, servers());
    assert_eq!(offer.connect_timeout, timeout);
    let answer = RtcTransport::connect_as_answerer("r", "s", "p", servers(), timeout);
    assert!(!answer.is_offerer && !answer.force_relay && !answer.cancellable);
    let offer =
        RtcTransport::connect_as_offerer_cancellable("r", "s", "p", servers(), timeout, true);
    assert!(offer.is_offerer && offer.force_relay && offer.cancellable);
    let answer =
        RtcTransport::connect_as_answerer_cancellable("r", "s", "p", servers(), timeout, false);
    assert!(!answer.is_offerer && !answer.force_relay && answer.cancellable);
}

#[test]
fn waiting_for_a_connection_ends_as_it_should() {
    let step = |cancelled, deadline, exchanged| {
        RtcTransport::on_connect_event(ConnectEvent::Nothing, cancelled, deadline, exchanged)
    };
    assert!(matches!(step(false, false, false), ConnectStep::Wait));
    assert!(matches!(step(true, true, true), ConnectStep::Abandon(RtcError::Cancelled)));
    assert!(matches!(step(false, true, true), ConnectStep::Abandon(RtcError::Timeout)));
    assert!(matches!(
        step(false, true, false),
        ConnectStep::Abandon(RtcError::PeerNeverArrived)
    ));
    let event = |event| RtcTransport::on_connect_event(event, false, false, false);
    assert!(matches!(event(ConnectEvent::Connected), ConnectStep::Ready(_)));
    assert!(matches!(
        event(ConnectEvent::Failed(RtcError::Signaling("x".to_string()))),
        ConnectStep::Fail(RtcError::Signaling(_))
    ));
    match event(ConnectEvent::Gone) {
        ConnectStep::Lost(RtcError::PeerConnection(reason)) => assert_eq!(
            reason,
            "rtc background thread exited before producing a connection"
        ),
        _ => panic!("must fail"),
    }
}

#[test]
fn frames_go_while_the_channel_is_there() {
    let mut transport = RtcTransport { closed: false };
    assert!(transport.check(false).is_ok());
    assert!(matches!(transport.check(true), Err(TransportError::DeadPath)));
    assert!(transport.send(false, true).is_ok());
    assert!(matches!(transport.send(false, false), Err(TransportError::Closed)));
    assert!(matches!(transport.send(true, true), Err(TransportError::DeadPath)));
    let frame = || ChannelEvent::Frame(vec![1]);
    assert_eq!(transport.recv(false, frame()).ok(), Some(Some(vec![1])));
    assert_eq!(transport.recv(false, ChannelEvent::Nothing).ok(), Some(None));
    assert!(matches!(transport.recv(true, frame()), Err(TransportError::DeadPath)));
    assert!(!transport.is_closed());
    assert!(matches!(transport.recv(false, ChannelEvent::Gone), Err(TransportError::Closed)));
    assert!(transport.is_closed());
    assert!(matches!(transport.check(true), Err(TransportError::Closed)));
    let mut transport = RtcTransport { closed: false };
    transport.close();
    assert!(transport.is_closed());
    assert!(matches!(transport.send(false, true), Err(TransportError::Closed)));
    assert!(matches!(transport.send(true, true), Err(TransportError::Closed)));
    assert!(matches!(transport.recv(false, frame()), Err(TransportError::Closed)));
}

#[test]
fn full_channel_holds_frames_back() {
    let mut pump = OutboundPump::new();
    let high = 1024 * 1024;
    let low = 256 * 1024;
    assert!(matches!(
        pump.on_event(PumpEvent::Frame { buffered: high - 1 }).0,
        PumpAction::Send
    ));
    assert!(matches!(pump.on_event(PumpEvent::Sent).0, PumpAction::Await));
    assert!(matches!(pump.on_event(PumpEvent::Frame { buffered: high }).0, PumpAction::Sleep));
    assert!(matches!(pump.on_event(PumpEvent::Buffered(low + 1)).0, PumpAction::Sleep));
    assert!(matches!(pump.on_event(PumpEvent::Buffered(low)).0, PumpAction::Send));
    assert!(matches!(pump.on_event(PumpEvent::Sent).0, PumpAction::Await));
}

#[test]
fn closing_flushes_and_drains() {
    let mut pump = OutboundPump::new();
    let _ = pump.on_event(PumpEvent::Frame { buffered: 2 * 1024 * 1024 });
    // Closed while a frame is held back: the frame still goes.
    assert!(matches!(pump.on_event(PumpEvent::Shutdown).0, PumpAction::Send));
    assert!(matches!(pump.on_event(PumpEvent::Sent).0, PumpAction::TakeQueued));
    assert!(matches!(pump.on_event(PumpEvent::Frame { buffered: 0 }).0, PumpAction::Send));
    assert!(matches!(pump.on_event(PumpEvent::Sent).0, PumpAction::TakeQueued));
    assert!(matches!(pump.on_event(PumpEvent::QueueEmpty).0, PumpAction::Look));
    assert!(matches!(pump.on_event(PumpEvent::Buffered(9)).0, PumpAction::SleepAndLook));
    assert!(matches!(pump.on_event(PumpEvent::Buffered(0)).0, PumpAction::Close));
}

#[test]
fn draining_gives_up() {
    let mut pump = OutboundPump::new();
    let _ = pump.on_event(PumpEvent::QueueClosed);
    let _ = pump.on_event(PumpEvent::QueueEmpty);
    for _ in 0..499 {
        assert!(matches!(pump.on_event(PumpEvent::Buffered(1)).0, PumpAction::SleepAndLook));
    }
    assert!(matches!(pump.on_event(PumpEvent::Buffered(1)).0, PumpAction::SleepAndClose));
}

#[test]
fn failed_sends_are_reported() {
    let mut pump = OutboundPump::new();
    let _ = pump.on_event(PumpEvent::Frame { buffered: 0 });
    let (action, report) = pump.on_event(PumpEvent::SendFailed("gone".to_string()));
    assert!(matches!(action, PumpAction::TakeQueued));
    assert_eq!(
        report.as_deref(),
        Some("DIAG transport: data_channel.send failed mid-transfer: gone")
    );
    let _ = pump.on_event(PumpEvent::Frame { buffered: 0 });
    let (action, report) = pump.on_event(PumpEvent::SendFailed("gone".to_string()));
    assert!(matches!(action, PumpAction::Look));
    assert_eq!(
        report.as_deref(),
        Some("DIAG transport: data_channel.send failed during close-flush: gone")
    );
}
