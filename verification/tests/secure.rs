use std::collections::VecDeque;

use base64::Engine;
use hmac::Mac;
use sha2::{Digest, Sha256};

use plenum::transport::envelope::{
    build_frame_aad, decode_envelope, encode_envelope, EncryptedFrame,
};
use plenum::transport::secure::{
    make_proof, public_key, recv_handshake, transcript, verify_proof, ClientHandshake,
    HandshakeWait, Received, SecureTransport, ServerHandshake,
};
use plenum::transport::tcp::TcpTransport;
use plenum::transport::TransportError;

/// A cipher for the tests: a key stream from a hash, and a tag over everything that
/// is authenticated.
fn stream(key: &[u8], nonce: &[u8]) -> Vec<u8> {
    Sha256::new().chain_update(key).chain_update(nonce).finalize().to_vec()
}

fn tag(key: &[u8], nonce: &[u8], ciphertext: &[u8], aad: &[u8]) -> Vec<u8> {
    let mut mac = <hmac::Hmac<Sha256> as Mac>::new_from_slice(key).unwrap();
    mac.update(nonce);
    mac.update(aad);
    mac.update(ciphertext);
    mac.finalize().into_bytes()[..16].to_vec()
}

fn nonce_text(nonce: &[u8]) -> String {
    base64::engine::general_purpose::URL_SAFE_NO_PAD.encode(nonce)
}

fn nonce_bytes(text: &str) -> Vec<u8> {
    base64::engine::general_purpose::URL_SAFE_NO_PAD.decode(text).unwrap()
}

fn encrypt(key: &[u8], counter: u64, plaintext: &[u8], aad: &[u8]) -> EncryptedFrame {
    let mut nonce = vec![7u8; 4];
    nonce.extend_from_slice(&counter.to_be_bytes());
    let pad = stream(key, &nonce);
    let mut ciphertext: Vec<u8> =
        plaintext.iter().enumerate().map(|(i, b)| b ^ pad[i % 32]).collect();
    let tag = tag(key, &nonce, &ciphertext, aad);
    ciphertext.extend_from_slice(&tag);
    EncryptedFrame { nonce: nonce_text(&nonce), ciphertext }
}

fn decrypt(key: &[u8], frame: &EncryptedFrame, aad: &[u8]) -> Result<Vec<u8>, String> {
    let nonce = nonce_bytes(&frame.nonce);
    let (ciphertext, got) = frame.ciphertext.split_at(frame.ciphertext.len() - 16);
    if tag(key, &nonce, ciphertext, aad) != got {
        return Err("failed to decrypt payload".to_string());
    }
    let pad = stream(key, &nonce);
    Ok(ciphertext.iter().enumerate().map(|(i, b)| b ^ pad[i % 32]).collect())
}

fn send(session: &mut SecureTransport, plaintext: &[u8]) -> Result<Vec<u8>, TransportError> {
    let aad = session.begin_send()?;
    let frame = encrypt(&session.send_key, session.send_counter, plaintext, &aad);
    let envelope = session.seal(plaintext.len(), Ok(frame))?;
    session.send(Ok(()))?;
    Ok(envelope)
}

fn recv(session: &mut SecureTransport, envelope: &[u8]) -> Result<Vec<u8>, String> {
    let incoming = session.open(envelope).map_err(|error| error.message("0.000"))?;
    let plaintext = decrypt(&session.recv_key, &incoming.frame, &incoming.aad);
    match session.recv(envelope, plaintext) {
        Received::Plain(bytes) => Ok(bytes),
        Received::Refused(error) => Err(error.message("0.000")),
        Received::Exhausted(error) => Err(error.message("0.000")),
    }
}

/// Runs a handshake in memory.
fn handshake(
    client_secret: Option<&str>,
    server_secret: Option<&str>,
) -> Result<(SecureTransport, SecureTransport), String> {
    let text = |error: TransportError| error.message("0.000");
    let client = SecureTransport::connect(client_secret).map_err(text)?;
    let server = SecureTransport::accept(&client.hello, server_secret).map_err(text)?;
    let response = server.response.clone();
    let (proof, client_end) = client.on_server_hello(&response).map_err(text)?;
    let server_end = server.on_client_proof(&proof).map_err(text)?;
    Ok((client_end, server_end))
}

#[test]
fn encrypted_transport_hides_plaintext_and_roundtrips_with_pin() {
    let (mut client, mut server) = handshake(Some("abc234"), Some("ABC234")).unwrap();
    let envelope =
        send(&mut client, b"private-file-name.txt::PRIVATE-FILE-CONTENTS").ok().unwrap();
    assert_eq!(
        recv(&mut server, &envelope).unwrap(),
        b"private-file-name.txt::PRIVATE-FILE-CONTENTS"
    );
    let answer = send(&mut server, b"authenticated response").ok().unwrap();
    assert_eq!(recv(&mut client, &answer).unwrap(), b"authenticated response");

    let wire = [envelope, answer].concat();
    assert!(!wire
        .windows(b"private-file-name.txt".len())
        .any(|w| w == b"private-file-name.txt"));
    assert!(!wire
        .windows(b"PRIVATE-FILE-CONTENTS".len())
        .any(|w| w == b"PRIVATE-FILE-CONTENTS"));
}

#[test]
fn wrong_pin_rejects_the_handshake() {
    let error = handshake(Some("WRONG1"), Some("RIGHT1")).err().unwrap();
    assert!(error.contains("pairing authentication failed"));
}

#[test]
fn server_rejects_a_wrong_proof() {
    let client = SecureTransport::connect(Some("WRONG1")).ok().unwrap();
    let server = SecureTransport::accept(&client.hello, Some("RIGHT1")).ok().unwrap();
    let proof = make_proof(Some("WRONG1"), b"client", &server.transcript).ok().unwrap();
    let error = server.on_client_proof(&proof).err().unwrap();
    assert!(error.message("").contains("pairing authentication failed"));
}

#[test]
fn pairing_secret_is_needed_where_the_server_wants_one() {
    assert!(handshake(None, Some("PIN")).err().unwrap().contains("pairing PIN required"));
    // A server that wants none does not look at the client's.
    assert!(handshake(Some("PIN"), None).is_ok());
    // A client without one refuses a server that wants one after all.
    let client = SecureTransport::connect(None).ok().unwrap();
    let mut hello = client.hello.clone();
    hello[73] = 1;
    let server = SecureTransport::accept(&hello, Some("PIN")).ok().unwrap();
    let response = server.response.clone();
    let error = client.on_server_hello(&response).err().unwrap();
    assert!(error.message("").contains("receiver requires a pairing PIN"));
}

#[test]
fn malformed_handshakes_are_refused() {
    let message = |error: TransportError| error.message("");
    let client = SecureTransport::connect(None).ok().unwrap();
    let mut other = client.hello.clone();
    other[8] = 3;
    assert!(message(SecureTransport::accept(&other, None).err().unwrap())
        .contains("incompatible or malformed secure LAN peer"));
    assert!(message(SecureTransport::accept(&client.hello[..73], None).err().unwrap())
        .contains("incompatible or malformed secure LAN peer"));
    let server = SecureTransport::accept(&client.hello, None).ok().unwrap();
    assert!(message(server.on_client_proof(&[0; 31]).err().unwrap())
        .contains("malformed client handshake proof"));
    assert!(message(client.on_server_hello(&[0; 106]).err().unwrap())
        .contains("incompatible or malformed secure LAN peer"));
    assert!(message(public_key(&[0; 31]).err().unwrap()).contains("invalid public key"));
    assert_eq!(public_key(&[9; 32]).ok().unwrap(), vec![9; 32]);
}

#[test]
fn handshake_with_known_keys_is_exact() {
    let client = ClientHandshake::with_random(vec![1; 32], vec![2; 32], None);
    assert_eq!(client.hello.len(), 74);
    assert_eq!(&client.hello[..9], b"PLNSEC01\x02");
    let secret = x25519_dalek::StaticSecret::from([1u8; 32]);
    let public = x25519_dalek::PublicKey::from(&secret);
    assert_eq!(&client.hello[9..41], public.as_bytes());
    assert_eq!(&client.hello[41..73], &[2; 32]);
    assert_eq!(client.hello[73], 0);

    let server =
        ServerHandshake::with_random(vec![3; 32], vec![4; 32], &client.hello, None).ok().unwrap();
    let mut hashed = Sha256::new();
    hashed.update(b"plenum-secure-lan-transcript-v2");
    hashed.update(&client.hello);
    hashed.update(&server.response[..74]);
    assert_eq!(server.transcript, hashed.finalize().to_vec());
    assert_eq!(&server.response[74..], &[0; 32]);
    assert_eq!(transcript(&client.hello, &server.response[..74]), server.transcript);

    let response = server.response.clone();
    let (proof, client_end) = client.on_server_hello(&response).ok().unwrap();
    assert_eq!(proof, vec![0; 32]);
    let digest = server.transcript.clone();
    let server_end = server.on_client_proof(&proof).ok().unwrap();
    assert_eq!(client_end.send_key, server_end.recv_key);
    assert_eq!(client_end.recv_key, server_end.send_key);
    assert_ne!(client_end.send_key, client_end.recv_key);
    assert!(client_end.client && !server_end.client);

    let other = x25519_dalek::PublicKey::from(&x25519_dalek::StaticSecret::from([3u8; 32]));
    let shared = secret.diffie_hellman(&other);
    let mut key = [0u8; 32];
    hkdf::Hkdf::<Sha256>::new(Some(&digest), shared.as_bytes())
        .expand(b"plenum-lan-v2:client-to-server", &mut key)
        .unwrap();
    assert_eq!(client_end.send_key, key.to_vec());
}

#[test]
fn proofs_ignore_case_and_white_space() {
    let digest = [5u8; 32];
    let proof = make_proof(Some("AbC234"), b"server", &digest).ok().unwrap();
    assert_eq!(proof, make_proof(Some("  abc234\t"), b"server", &digest).ok().unwrap());
    assert_ne!(proof, make_proof(Some("abc235"), b"server", &digest).ok().unwrap());
    assert_ne!(proof, make_proof(Some("abc234"), b"client", &digest).ok().unwrap());
    assert!(verify_proof(Some("ABC234"), b"server", &digest, &proof).is_ok());
    assert!(verify_proof(None, b"server", &digest, &proof).is_err());

    let mut mac = <hmac::Hmac<Sha256> as Mac>::new_from_slice(b"ABC234").unwrap();
    mac.update(b"plenum-secure-lan-proof-v2");
    mac.update(b"server");
    mac.update(&digest);
    assert_eq!(proof, mac.finalize().into_bytes().to_vec());
}

#[test]
fn tampered_ciphertext_is_rejected() {
    let (mut client, mut server) = handshake(None, None).unwrap();
    let mut envelope = send(&mut client, b"secret").ok().unwrap();
    envelope[21] ^= 1;
    assert!(recv(&mut server, &envelope).unwrap_err().contains("failed to decrypt payload"));
}

#[test]
fn replayed_ciphertext_is_rejected() {
    let (mut client, mut server) = handshake(None, None).unwrap();
    let envelope = send(&mut client, b"secret").ok().unwrap();
    assert_eq!(recv(&mut server, &envelope).unwrap(), b"secret");
    let error = recv(&mut server, &envelope).unwrap_err();
    assert!(error.contains("unexpected encrypted frame counter"));
    assert!(error.contains("expected_counter=1"));
    assert!(error.contains("received_counter=0"));
}

#[test]
fn omitted_encrypted_frame_is_rejected() {
    let (mut client, mut server) = handshake(None, None).unwrap();
    let _ = send(&mut client, &[0]).ok().unwrap();
    let second = send(&mut client, &[1]).ok().unwrap();
    let error = recv(&mut server, &second).unwrap_err();
    assert!(error.contains("unexpected encrypted frame counter"));
    assert!(error.contains("expected_counter=0"));
    assert!(error.contains("received_counter=1"));
}

#[test]
fn swapped_encrypted_frames_are_rejected() {
    let (mut client, mut server) = handshake(None, None).unwrap();
    let first = send(&mut client, &[0]).ok().unwrap();
    let second = send(&mut client, &[1]).ok().unwrap();
    let error = recv(&mut server, &second).unwrap_err();
    assert!(error.contains("unexpected encrypted frame counter"));
    assert!(error.contains("expected_counter=0"));
    assert!(error.contains("received_counter=1"));
    // The refusal changes nothing: the frame that is due is still taken.
    assert_eq!(recv(&mut server, &first).unwrap(), [0]);
    assert_eq!(recv(&mut server, &second).unwrap(), [1]);
}

#[test]
fn modified_encrypted_frame_counter_is_rejected() {
    let (mut client, mut server) = handshake(None, None).unwrap();
    let mut envelope = send(&mut client, &[0]).ok().unwrap();
    envelope[8] ^= 1;
    assert!(recv(&mut server, &envelope)
        .unwrap_err()
        .contains("unexpected encrypted frame counter"));
}

#[test]
fn modified_encrypted_frame_tag_is_rejected() {
    let (mut client, mut server) = handshake(None, None).unwrap();
    let mut envelope = send(&mut client, &[0]).ok().unwrap();
    *envelope.last_mut().unwrap() ^= 1;
    let error = recv(&mut server, &envelope).unwrap_err();
    assert!(error.contains("failed to authenticate encrypted frame"));
    assert!(error.contains("counter=0"));
}

#[test]
fn unsupported_encrypted_envelope_version_is_rejected() {
    let (mut client, mut server) = handshake(None, None).unwrap();
    let mut envelope = send(&mut client, &[0]).ok().unwrap();
    envelope[0] = 3;
    assert!(recv(&mut server, &envelope)
        .unwrap_err()
        .contains("unsupported encrypted envelope version"));
}

#[test]
fn truncated_encrypted_envelope_is_rejected() {
    let (mut client, mut server) = handshake(None, None).unwrap();
    let envelope = send(&mut client, &[0]).ok().unwrap();
    assert!(recv(&mut server, &envelope[..20])
        .unwrap_err()
        .contains("truncated encrypted frame"));
}

#[test]
fn frames_of_the_other_direction_are_rejected() {
    let (mut client, _) = handshake(None, None).unwrap();
    let envelope = send(&mut client, b"x").ok().unwrap();
    assert!(recv(&mut client, &envelope)
        .unwrap_err()
        .contains("failed to authenticate encrypted frame"));
}

#[test]
fn counters_run_out_with_an_error() {
    let (mut client, mut server) = handshake(None, None).unwrap();
    client.send_counter = u64::MAX;
    let error = client.begin_send().err().unwrap().message("");
    assert!(error.contains("secure frame counter exhausted"));
    assert!(error.contains("direction=client-to-server counter=18446744073709551615"));

    server.expected_recv_counter = u64::MAX;
    let aad = build_frame_aad(b"plenum-lan-v2:client-to-server", u64::MAX);
    let frame = encrypt(&client.send_key, u64::MAX, b"last", &aad);
    let envelope = encode_envelope(u64::MAX, &frame).ok().unwrap();
    assert!(recv(&mut server, &envelope).unwrap_err().contains("secure frame counter exhausted"));
    assert_eq!(server.expected_recv_counter, u64::MAX);
}

#[test]
fn only_a_delivered_frame_uses_its_number_up() {
    let (mut client, mut server) = handshake(None, None).unwrap();
    assert!(send(&mut client, b"a").is_ok());
    let failure = TransportError::CleanEof { operation: "write" };
    let error = client.send(Err(failure)).err().unwrap();
    assert!(matches!(error, TransportError::CleanEof { operation: "write" }));
    assert_eq!(client.send_counter, 1);
    let envelope = send(&mut client, b"b").ok().unwrap();
    assert_eq!(&envelope[..9], &[2, 0, 0, 0, 0, 0, 0, 0, 1]);
    assert_eq!(client.send_counter, 2);
    client.send_counter = u64::MAX;
    let error = client.send(Ok(())).err().unwrap().message("");
    assert!(error.contains("secure frame counter exhausted"));
    assert_eq!(client.send_counter, u64::MAX);
    server.send_counter = 7;
    assert!(server.send(Ok(())).is_ok());
    assert_eq!(server.send_counter, 8);
}

#[test]
fn what_is_taken_is_a_prefix_of_what_was_sealed() {
    let (mut client, mut server) = handshake(Some("PIN"), Some("pin")).unwrap();
    let envelopes: Vec<Vec<u8>> =
        (0u8..4).map(|i| send(&mut client, &[i; 3]).ok().unwrap()).collect();
    let mut forged = envelopes[1].clone();
    forged[30] ^= 0x40;
    let mut taken: Vec<Vec<u8>> = Vec::new();
    let order = [2usize, 0, 0, 9, 3, 1, 1, 0, 2];
    for index in order {
        let envelope = if index == 9 { &forged } else { &envelopes[index] };
        let due = server.expected_recv_counter;
        match recv(&mut server, envelope) {
            Ok(plaintext) => taken.push(plaintext),
            Err(_) => assert_eq!(server.expected_recv_counter, due),
        }
    }
    assert_eq!(taken, vec![vec![0; 3], vec![1; 3], vec![2; 3]]);
    assert_eq!(server.expected_recv_counter, 3);
    // A refusal comes before the cipher's answer is looked at.
    assert!(matches!(
        server.recv(&envelopes[0], Ok(vec![1])),
        Received::Refused(_)
    ));
}

#[test]
fn fresh_handshakes_differ_and_are_well_formed() {
    let first = SecureTransport::connect(Some("PIN")).ok().unwrap();
    let second = SecureTransport::connect(Some("PIN")).ok().unwrap();
    assert_ne!(first.secret, second.secret);
    assert_ne!(first.hello, second.hello);
    assert_ne!(first.secret, vec![0; 32]);
    assert_eq!(first.hello.len(), 74);
    assert_eq!(first.hello[73], 1);
    assert_eq!(SecureTransport::connect(None).ok().unwrap().hello[73], 0);
    let server = SecureTransport::accept(&first.hello, Some("pin")).ok().unwrap();
    assert_eq!(server.response.len(), 106);
    let (proof, _) = first.on_server_hello(&server.response).ok().unwrap();
    assert_eq!(proof.len(), 32);
}

#[test]
fn cipher_failures_are_reported() {
    let (client, _) = handshake(None, None).unwrap();
    let error = client.seal(3, Err("broken".to_string())).err().unwrap().message("");
    assert!(error.contains(
        "failed to encrypt secure frame: direction=client-to-server counter=0 plaintext_len=3 error=broken"
    ));
    let frame = EncryptedFrame { nonce: "!!".to_string(), ciphertext: vec![0; 16] };
    let error = client.seal(3, Ok(frame)).err().unwrap().message("");
    assert!(error.contains("invalid encrypted-frame nonce"));
    let frame = EncryptedFrame { nonce: nonce_text(&[1; 11]), ciphertext: vec![0; 16] };
    assert!(client.seal(3, Ok(frame)).is_err());
}

#[test]
fn envelope_layout_is_exact() {
    let frame = EncryptedFrame { nonce: nonce_text(&[9; 12]), ciphertext: vec![5; 16] };
    let bytes = encode_envelope(258, &frame).ok().unwrap();
    let mut expected = vec![2, 0, 0, 0, 0, 0, 0, 1, 2];
    expected.extend_from_slice(&[9; 12]);
    expected.extend_from_slice(&[5; 16]);
    assert_eq!(bytes, expected);
    let decoded = decode_envelope(&bytes).ok().unwrap();
    assert_eq!(decoded.counter, 258);
    assert_eq!(decoded.frame.nonce, "CQkJCQkJCQkJCQkJ");
    assert_eq!(decoded.frame.ciphertext, vec![5; 16]);
    assert_eq!(
        build_frame_aad(b"d", 258),
        vec![b'd', 2, 0, 0, 0, 0, 0, 0, 1, 2]
    );
}

#[test]
fn handshake_waits_until_its_deadline() {
    assert!(matches!(recv_handshake(4, 5), HandshakeWait::Sleep));
    match recv_handshake(5, 5) {
        HandshakeWait::TimedOut(error) => {
            assert!(error.message("").contains("secure LAN handshake timed out"))
        }
        _ => panic!("the deadline has passed"),
    }
}

#[test]
fn encrypted_tcp_sustains_production_sized_transfer() {
    let frame_count = 64usize;
    let chunk_size = 256 * 1024usize;
    let (mut client, mut server) = handshake(None, None).unwrap();
    let mut socket = TcpTransport::new();
    let mut wire: VecDeque<u8> = VecDeque::new();
    let mut sent_hash = Sha256::new();
    let mut received_hash = Sha256::new();

    for index in 0..frame_count {
        let frame = vec![(index as u8).wrapping_add(17); chunk_size];
        sent_hash.update(&frame);
        let envelope = send(&mut client, &frame).ok().unwrap();
        wire.extend(socket.send(&envelope).ok().unwrap());
        wire.extend(envelope);
        while !wire.is_empty() {
            let part: Vec<u8> = wire.drain(..wire.len().min(60_000)).collect();
            assert!(matches!(socket.fill_from_socket(Ok(part)), Some(Ok(()))));
        }
        let envelope = socket.recv(Ok(())).ok().unwrap().unwrap();
        let received = recv(&mut server, &envelope).unwrap();
        assert_eq!(received, vec![(index as u8).wrapping_add(17); chunk_size]);
        received_hash.update(&received);
        let ack = send(&mut server, &(index as u64).to_be_bytes()).ok().unwrap();
        assert_eq!(recv(&mut client, &ack).unwrap(), (index as u64).to_be_bytes());
    }

    assert_eq!(received_hash.finalize().to_vec(), sent_hash.finalize().to_vec());
}
