use plenum::app::payload::{
    encode_start_payload, parse_accept_payload, parse_start_payload, START_PAYLOAD_V2_SENTINEL,
    STREAM_MODE_MAGIC,
};
use plenum::app::remote::should_retry_via_relay;
use plenum::app::AppError;
use plenum::rtc::RtcError;
use plenum::signaling::IceServer;
use plenum::transport::TransportError;

#[test]
fn start_payload_legacy_format_parses() {
    // Without a marker: eight bytes of size, then the name.
    let mut payload = Vec::new();
    payload.extend_from_slice(&1234u64.to_be_bytes());
    payload.extend_from_slice(b"photo.jpg");

    let (size, name, sender) = parse_start_payload(&payload).ok().unwrap();
    assert_eq!(size, 1234);
    assert_eq!(name, "photo.jpg");
    assert_eq!(sender, None);
}

#[test]
fn start_payload_versioned_roundtrip() {
    let payload = encode_start_payload(987_654_321, "video.mp4", Some("Atharva's Pixel"));
    assert_eq!(payload[0], START_PAYLOAD_V2_SENTINEL);

    let (size, name, sender) = parse_start_payload(&payload).ok().unwrap();
    assert_eq!(size, 987_654_321);
    assert_eq!(name, "video.mp4");
    assert_eq!(sender.as_deref(), Some("Atharva's Pixel"));
}

#[test]
fn start_payload_without_device_name_uses_legacy_format() {
    let payload = encode_start_payload(42, "doc.pdf", None);
    assert_ne!(payload[0], START_PAYLOAD_V2_SENTINEL);

    let (size, name, sender) = parse_start_payload(&payload).ok().unwrap();
    assert_eq!(size, 42);
    assert_eq!(name, "doc.pdf");
    assert_eq!(sender, None);
}

#[test]
fn start_payload_versioned_empty_device_name_is_none() {
    let payload = encode_start_payload(42, "doc.pdf", Some(""));
    let (_, _, sender) = parse_start_payload(&payload).ok().unwrap();
    assert_eq!(sender, None);
}

#[test]
fn start_payload_truncated_versioned_is_rejected() {
    let mut payload = encode_start_payload(42, "doc.pdf", Some("Laptop"));
    payload.truncate(10);
    assert!(parse_start_payload(&payload).is_err());

    // Name length claims more bytes than present.
    let mut bad = vec![START_PAYLOAD_V2_SENTINEL];
    bad.extend_from_slice(&42u64.to_be_bytes());
    bad.extend_from_slice(&100u16.to_be_bytes());
    bad.extend_from_slice(b"short");
    assert!(parse_start_payload(&bad).is_err());
}

#[test]
fn start_payload_errors_say_what_is_wrong() {
    let message = |payload: &[u8]| match parse_start_payload(payload) {
        Err(AppError::InvalidRequest(message)) => message,
        _ => panic!("must be an invalid request"),
    };
    assert_eq!(message(&[1, 2, 3]), "start packet payload must contain file size");
    assert_eq!(message(&[]), "start packet payload must contain file size");
    assert_eq!(message(&[0xFF, 0]), "versioned start packet payload is too short");
    assert_eq!(
        message(&[0xFF, 0, 0, 0, 0, 0, 0, 0, 42, 0, 9, b'x']),
        "start packet file name is truncated"
    );
}

#[test]
fn start_payload_layout_is_exact() {
    assert_eq!(
        encode_start_payload(0x0102, "ab", None),
        vec![0, 0, 0, 0, 0, 0, 1, 2, b'a', b'b']
    );
    assert_eq!(
        encode_start_payload(0x0102, "ab", Some("c")),
        vec![0xFF, 0, 0, 0, 0, 0, 0, 1, 2, 0, 2, b'a', b'b', b'c']
    );
}

#[test]
fn start_payload_repairs_names_that_are_no_text() {
    let mut payload = 7u64.to_be_bytes().to_vec();
    payload.extend_from_slice(&[b'a', 0xC0, b'b']);
    let (size, name, sender) = parse_start_payload(&payload).ok().unwrap();
    assert_eq!(size, 7);
    assert_eq!(name, "a\u{FFFD}b");
    assert_eq!(sender, None);
}

#[test]
fn start_payload_name_longer_than_its_count_spills_over() {
    let long = "n".repeat(65_537);
    let payload = encode_start_payload(1, &long, Some("d"));
    let (_, name, sender) = parse_start_payload(&payload).ok().unwrap();
    assert_eq!(name, "n");
    assert_eq!(sender.unwrap().len(), 65_537);
}

#[test]
fn stream_magic_never_parses_as_resume_offset() {
    // An eight-byte resume payload is an offset; the marker must never be one.
    assert_ne!(STREAM_MODE_MAGIC.len(), 8);
    // And it must differ from every real offset by construction.
    assert!(STREAM_MODE_MAGIC.len() > 8);
}

#[test]
fn accept_payload_roundtrip() {
    assert_eq!(parse_accept_payload(b""), None);
    assert_eq!(
        parse_accept_payload("MacBook Pro".as_bytes()),
        Some("MacBook Pro".to_string())
    );
}

#[test]
fn relay_retry_only_for_dead_path_or_timeout_with_turn_available() {
    let stun_only = vec![IceServer::new(vec!["stun:stun.example.com:3478".into()])];
    let with_turn = vec![
        IceServer::new(vec!["stun:stun.example.com:3478".into()]),
        IceServer::with_credentials(
            vec!["turn:turn.example.com:3478?transport=udp".into()],
            "user",
            "secret",
        ),
    ];

    let dead_path = AppError::Transport(TransportError::DeadPath);
    let timeout = AppError::Rtc(RtcError::Timeout);
    let peer_never_arrived = AppError::Rtc(RtcError::PeerNeverArrived);
    let cancelled = AppError::Cancelled;
    let rejected = AppError::Rejected("declined".into());
    let closed = AppError::Transport(TransportError::Closed);

    assert!(should_retry_via_relay(&dead_path, &with_turn));
    assert!(should_retry_via_relay(&timeout, &with_turn));

    // No TURN server: forcing relay-only ICE cannot produce candidates.
    assert!(!should_retry_via_relay(&dead_path, &stun_only));
    assert!(!should_retry_via_relay(&timeout, &stun_only));

    // Non-path failures must never trigger a retry.
    assert!(!should_retry_via_relay(&cancelled, &with_turn));
    assert!(!should_retry_via_relay(&rejected, &with_turn));
    // The peer never joined: forcing a relay is useless.
    assert!(!should_retry_via_relay(&peer_never_arrived, &with_turn));
    assert!(!should_retry_via_relay(&closed, &with_turn));
}
