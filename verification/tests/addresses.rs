use plenum::rtc::resolve::{
    fallback_applies, is_relay_host, rewrite_host_to_fallback_ip,
    rewrite_ice_servers_to_fallback_ip, RELAY_FALLBACK_IP,
};
use plenum::rtc::turn::{
    after_first_fetch, https_scheme, ice_server_from_reply, turn_credentials_url, FetchStep,
    TurnCredentials,
};
use plenum::signaling::IceServer;

#[test]
fn fallback_applies_only_to_official_relay() {
    assert!(fallback_applies("wss://relay.plenumonline.me/ws"));
    assert!(fallback_applies("https://relay.plenumonline.me/turn-credentials"));
    assert!(!fallback_applies("wss://example.com/ws"));
    assert!(!fallback_applies("not a url"));
    assert!(!fallback_applies(""));
}

#[test]
fn relay_host_is_one_name() {
    assert!(is_relay_host(Some("relay.plenumonline.me")));
    assert!(!is_relay_host(Some("relay.plenumonline.me.example.com")));
    assert!(!is_relay_host(None));
}

#[test]
fn rewrites_stun_and_turn_urls() {
    assert_eq!(
        rewrite_host_to_fallback_ip("stun:relay.plenumonline.me:3478"),
        format!("stun:{RELAY_FALLBACK_IP}:3478")
    );
    assert_eq!(
        rewrite_host_to_fallback_ip("turn:relay.plenumonline.me:3478?transport=udp"),
        format!("turn:{RELAY_FALLBACK_IP}:3478?transport=udp")
    );
    assert_eq!(
        rewrite_host_to_fallback_ip("stun:stun.l.google.com:19302"),
        "stun:stun.l.google.com:19302"
    );
}

#[test]
fn rewrites_every_occurrence() {
    assert_eq!(
        rewrite_host_to_fallback_ip("relay.plenumonline.me,relay.plenumonline.me"),
        "13.232.226.146,13.232.226.146"
    );
}

#[test]
fn rewrites_ice_server_list_preserving_credentials() {
    let servers = vec![
        IceServer {
            urls: vec!["stun:relay.plenumonline.me:3478".to_string()],
            username: None,
            credential: None,
        },
        IceServer {
            urls: vec!["turn:relay.plenumonline.me:3478?transport=udp".to_string()],
            username: Some("user".to_string()),
            credential: Some("pass".to_string()),
        },
    ];
    let rewritten = rewrite_ice_servers_to_fallback_ip(&servers);
    assert_eq!(rewrite_ice_servers_to_fallback_ip(&rewritten), rewritten);
    assert!(rewritten.iter().all(|s| s.urls.iter().all(|u| !u.contains("relay.plenumonline.me"))));
    assert_eq!(rewritten[0].urls[0], format!("stun:{RELAY_FALLBACK_IP}:3478"));
    assert_eq!(
        rewritten[1].urls[0],
        format!("turn:{RELAY_FALLBACK_IP}:3478?transport=udp")
    );
    assert_eq!(rewritten[1].username.as_deref(), Some("user"));
    assert_eq!(rewritten[1].credential.as_deref(), Some("pass"));
}

#[test]
fn derives_https_endpoint_from_wss_url() {
    let url = turn_credentials_url("wss://relay.plenumonline.me/ws", "peer-1").unwrap();
    assert_eq!(
        url.as_str(),
        "https://relay.plenumonline.me/turn-credentials?peer_id=peer-1"
    );
}

#[test]
fn derives_http_endpoint_from_ws_url() {
    let url = turn_credentials_url("ws://localhost:8080/ws", "p").unwrap();
    assert_eq!(
        url.as_str(),
        "http://localhost:8080/turn-credentials?peer_id=p"
    );
}

#[test]
fn empty_relay_url_yields_none() {
    assert!(turn_credentials_url("", "p").is_none());
    assert!(turn_credentials_url("   ", "p").is_none());
}

#[test]
fn relay_url_that_is_no_address_yields_none() {
    assert!(turn_credentials_url("not a url", "p").is_none());
    // A scheme that cannot become https.
    assert!(turn_credentials_url("mailto:someone@example.com", "p").is_none());
}

#[test]
fn relay_url_may_have_white_space_around_it() {
    assert_eq!(
        turn_credentials_url("  https://example.com  ", "p").as_deref(),
        Some("https://example.com/turn-credentials?peer_id=p")
    );
}

#[test]
fn credentials_come_over_the_matching_scheme() {
    assert_eq!(https_scheme("wss"), "https");
    assert_eq!(https_scheme("https"), "https");
    assert_eq!(https_scheme("ws"), "http");
    assert_eq!(https_scheme("http"), "http");
    assert_eq!(https_scheme("ftp"), "https");
}

fn credentials(urls: Vec<String>) -> TurnCredentials {
    TurnCredentials {
        username: "u".to_string(),
        credential: "c".to_string(),
        urls,
    }
}

#[test]
fn reply_without_addresses_is_no_server() {
    let server = ice_server_from_reply(true, Some(credentials(vec!["turn:x".to_string()]))).unwrap();
    assert_eq!(server.urls, vec!["turn:x".to_string()]);
    assert_eq!(server.username.as_deref(), Some("u"));
    assert_eq!(server.credential.as_deref(), Some("c"));
    assert!(ice_server_from_reply(true, Some(credentials(vec![]))).is_none());
    assert!(ice_server_from_reply(false, Some(credentials(vec!["turn:x".to_string()]))).is_none());
    assert!(ice_server_from_reply(true, None).is_none());
}

#[test]
fn second_request_only_for_the_official_relay() {
    assert!(matches!(
        after_first_fetch("wss://relay.plenumonline.me/ws", None),
        FetchStep::AskFallback
    ));
    assert!(matches!(
        after_first_fetch("wss://example.com/ws", None),
        FetchStep::Done(None)
    ));
    let server = IceServer::new(vec!["turn:x".to_string()]);
    match after_first_fetch("wss://relay.plenumonline.me/ws", Some(server)) {
        FetchStep::Done(Some(server)) => assert_eq!(server.urls, vec!["turn:x".to_string()]),
        _ => panic!("the first answer stands"),
    }
}
