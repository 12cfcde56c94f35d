//! Authenticated encrypted transport used by LAN transfers.
//!
//! Two peers exchange hellos with fresh X25519 keys and nonces, prove that they
//! hold the same pairing secret over a digest of both hellos, and derive one key
//! for each direction. After that every frame travels in an envelope that carries
//! a counter; the counter and the direction are authenticated with the frame, and
//! a receiver takes envelopes only in the order of their counters.

use vstd::prelude::*;
use vstd::string::*;

use crate::text::{
    ascii_uppercase, borrow, decimal, own, owned_text, push_decimal, text_of, to_ascii_uppercase,
    trim, trimmed,
};
use crate::transport::crypto::{
    base64_bytes, hkdf_sha256, hkdf_sha256_of, hmac_sha256, hmac_sha256_of, random_bytes,
    sha256, sha256_of, x25519_public, x25519_public_of, x25519_shared,
    x25519_shared_of,
};
use crate::transport::envelope::{
    build_frame_aad, check_envelope, counter_of, decode_envelope, direction_aad, encode_envelope, envelope_bytes,
    envelope_fault, frame_aad, frame_failure, law_envelope_is_canonical, law_envelope_round_trip,
    law_frame_aad_is_unique, secure_frame_error,
    EncryptedFrame, AAD_CLIENT_TO_SERVER, AAD_SERVER_TO_CLIENT,
    ENVELOPE_HEADER_LEN, ENVELOPE_VERSION, NONCE_LEN,
};
use crate::transport::error::{IoErrorKind, TransportError};
use crate::wire::{be_bytes, bytes_equal, lemma_be_bytes_len, push_all};

verus! {

/// What every hello starts with.
pub const MAGIC: &'static str = "PLNSEC01";

/// The version of the handshake.
pub const SECURE_PROTOCOL_VERSION: u8 = 2;

/// Length of a hello.
pub const HELLO_LEN: usize = 74;

/// Length of the server's answer: a hello and a proof.
pub const SERVER_HELLO_LEN: usize = 106;

/// Length of a proof.
pub const PROOF_LEN: usize = 32;

pub const DIRECTION_CLIENT_TO_SERVER: &'static str = "client-to-server";

pub const DIRECTION_SERVER_TO_CLIENT: &'static str = "server-to-client";

/// The message of a handshake for which the machine has no random bytes.
pub const NO_RANDOM_BYTES: &'static str = "no random bytes for the handshake";

/// The error of a handshake.
pub open spec fn handshake_failure(message: Seq<char>) -> TransportError<Seq<char>> {
    TransportError::Io { operation: "secure handshake", kind: IoErrorKind::InvalidData, message }
}

/// The error of a handshake.
pub fn handshake_error(message: &str) -> (error: TransportError)
    ensures
        error@ == handshake_failure(message@),
{
    TransportError::Io {
        operation: "secure handshake",
        kind: IoErrorKind::InvalidData,
        message: message.to_string(),
    }
}

/// The error of a session cipher that could not be set up.
pub fn security_error(reason: &str) -> (error: TransportError)
    ensures
        error@ == frame_failure("secure LAN transport error: "@ + reason@),
{
    let mut m: String = "secure LAN transport error: ".to_string();
    m.append(reason);
    secure_frame_error(m.as_str())
}

/// A hello: the magic, the version, a public key, a nonce, and whether its sender
/// holds (as a client) or wants (as a server) a pairing secret.
pub open spec fn hello_bytes(public: Seq<u8>, nonce: Seq<u8>, pin: bool) -> Seq<u8> {
    MAGIC.spec_bytes() + seq![SECURE_PROTOCOL_VERSION] + public + nonce + seq![
        if pin {
            1u8
        } else {
            0u8
        },
    ]
}

/// Whether `hello` is a hello of this protocol and `len` bytes long.
pub open spec fn speaks_protocol(hello: Seq<u8>, len: nat) -> bool {
    &&& hello.len() == len
    &&& hello.take(8) == MAGIC.spec_bytes()
    &&& hello[8] == SECURE_PROTOCOL_VERSION
}

/// The digest that both peers prove to have seen.
pub open spec fn transcript_of(client: Seq<u8>, server: Seq<u8>) -> Seq<u8> {
    sha256_of("plenum-secure-lan-transcript-v2".spec_bytes() + client + server)
}

/// The key of a proof: the pairing secret without the white space around it and
/// in upper case.
pub open spec fn proof_key(secret: Seq<char>) -> Seq<u8> {
    vstd::utf8::encode_utf8(ascii_uppercase(trimmed(secret)))
}

/// The proof that `role` gives over `transcript`: all zero without a secret.
pub open spec fn proof_of(
    secret: Option<Seq<char>>,
    role: Seq<u8>,
    transcript: Seq<u8>,
) -> Seq<u8> {
    match secret {
        None => Seq::new(32, |i: int| 0u8),
        Some(s) => hmac_sha256_of(
            proof_key(s),
            "plenum-secure-lan-proof-v2".spec_bytes() + role + transcript,
        ),
    }
}

proof fn lemma_magic()
    ensures
        MAGIC.spec_bytes().len() == 8,
{
    reveal_strlit("PLNSEC01");
    assert(is_ascii(MAGIC));
    is_ascii_spec_bytes(MAGIC);
}

/// The layout of a hello.
pub proof fn lemma_hello_layout(public: Seq<u8>, nonce: Seq<u8>, pin: bool)
    requires
        public.len() == 32,
        nonce.len() == 32,
    ensures
        hello_bytes(public, nonce, pin).len() == HELLO_LEN,
        speaks_protocol(hello_bytes(public, nonce, pin), HELLO_LEN as nat),
        hello_bytes(public, nonce, pin).subrange(9, 41) == public,
        (hello_bytes(public, nonce, pin)[73] == 1) == pin,
{
    lemma_magic();
    let hello = hello_bytes(public, nonce, pin);
    assert(hello.take(8) =~= MAGIC.spec_bytes());
    assert(hello.subrange(9, 41) =~= public);
}

/// Builds a hello.
fn make_hello(public: &[u8], nonce: &[u8], pin: bool) -> (hello: Vec<u8>)
    ensures
        hello@ == hello_bytes(public@, nonce@, pin),
{
    let mut hello: Vec<u8> = Vec::new();
    push_all(&mut hello, MAGIC.as_bytes());
    hello.push(SECURE_PROTOCOL_VERSION);
    push_all(&mut hello, public);
    push_all(&mut hello, nonce);
    hello.push(
        if pin {
            1u8
        } else {
            0u8
        },
    );
    assert(hello@ =~= hello_bytes(public@, nonce@, pin));
    hello
}

/// Whether `hello` is a hello of this protocol and `len` bytes long.
fn check_hello(hello: &[u8], len: usize) -> (ok: bool)
    requires
        len >= HELLO_LEN,
    ensures
        ok == speaks_protocol(hello@, len as nat),
{
    if hello.len() != len {
        return false;
    }
    assert(hello@.subrange(0, 8) =~= hello@.take(8));
    bytes_equal(vstd::slice::slice_subrange(hello, 0, 8), MAGIC.as_bytes()) && hello[8]
        == SECURE_PROTOCOL_VERSION
}

/// What a server that wants a pairing secret, or none, has against a client's hello.
pub open spec fn hello_fault(hello: Seq<u8>, wants_secret: bool) -> Option<Seq<char>> {
    if !speaks_protocol(hello, HELLO_LEN as nat) {
        Some("incompatible or malformed secure LAN peer"@)
    } else if wants_secret && hello[73] != 1 {
        Some("pairing PIN required"@)
    } else {
        None
    }
}

/// Whether a server takes a client's hello.
fn check_client_hello(hello: &[u8], wants_secret: bool) -> (r: Result<(), TransportError>)
    ensures
        match r {
            Ok(_) => hello_fault(hello@, wants_secret) is None,
            Err(error) => hello_fault(hello@, wants_secret) is Some && error@ == handshake_failure(
                hello_fault(hello@, wants_secret)->Some_0,
            ),
        },
{
    if !check_hello(hello, HELLO_LEN) {
        return Err(handshake_error("incompatible or malformed secure LAN peer"));
    }
    if wants_secret && hello[73] != 1 {
        return Err(handshake_error("pairing PIN required"));
    }
    Ok(())
}

/// Fresh random bytes for a key or a nonce.
fn fresh_bytes() -> (r: Result<Vec<u8>, TransportError>)
    ensures
        match r {
            Ok(bytes) => bytes@.len() == 32,
            Err(error) => error@ == handshake_failure(NO_RANDOM_BYTES@),
        },
{
    match random_bytes() {
        Ok(bytes) => Ok(bytes),
        Err(_) => Err(handshake_error(NO_RANDOM_BYTES)),
    }
}

/// The digest over both hellos.
pub fn transcript(client: &[u8], server: &[u8]) -> (digest: Vec<u8>)
    ensures
        digest@ == transcript_of(client@, server@),
        digest@.len() == 32,
{
    let mut message: Vec<u8> = Vec::new();
    push_all(&mut message, "plenum-secure-lan-transcript-v2".as_bytes());
    push_all(&mut message, client);
    push_all(&mut message, server);
    assert(message@ =~= "plenum-secure-lan-transcript-v2".spec_bytes() + client@ + server@);
    sha256(message.as_slice())
}

/// The proof that `role` gives over `transcript`.
pub fn make_proof(secret: Option<&str>, role: &[u8], transcript: &[u8]) -> (proof: Result<
    Vec<u8>,
    TransportError,
>)
    ensures
        proof is Ok,
        proof->Ok_0@ == proof_of(text_of(secret), role@, transcript@),
        proof->Ok_0@.len() == PROOF_LEN,
{
    match secret {
        None => {
            let zeros: Vec<u8> = vec![0u8; PROOF_LEN];
            assert(zeros@ =~= Seq::new(32, |i: int| 0u8));
            Ok(zeros)
        },
        Some(secret) => {
            let trimmed_secret: String = trim(secret);
            let key: String = to_ascii_uppercase(trimmed_secret.as_str());
            let mut message: Vec<u8> = Vec::new();
            push_all(&mut message, "plenum-secure-lan-proof-v2".as_bytes());
            push_all(&mut message, role);
            push_all(&mut message, transcript);
            assert(message@ =~= "plenum-secure-lan-proof-v2".spec_bytes() + role@ + transcript@);
            match hmac_sha256(key.as_str().as_bytes(), message.as_slice()) {
                Ok(tag) => Ok(tag),
                Err(_) => Err(handshake_error("invalid pairing secret")),
            }
        },
    }
}

/// Whether `proof` is the proof that `role` owes.
pub fn verify_proof(secret: Option<&str>, role: &[u8], transcript: &[u8], proof: &[u8]) -> (r:
    Result<(), TransportError>)
    ensures
        r is Ok <==> proof@ == proof_of(text_of(secret), role@, transcript@),
        r matches Err(error) ==> error@ == handshake_failure("pairing authentication failed"@),
{
    match make_proof(secret, role, transcript) {
        Err(error) => Err(error),
        Ok(expected) => if bytes_equal(proof, expected.as_slice()) {
            Ok(())
        } else {
            Err(handshake_error("pairing authentication failed"))
        },
    }
}

/// A public key: any 32 bytes.
pub fn public_key(bytes: &[u8]) -> (key: Result<Vec<u8>, TransportError>)
    ensures
        match key {
            Ok(k) => bytes@.len() == 32 && k@ == bytes@,
            Err(error) => bytes@.len() != 32 && error@ == handshake_failure("invalid public key"@),
        },
{
    if bytes.len() == 32 {
        Ok(vstd::slice::slice_to_vec(bytes))
    } else {
        Err(handshake_error("invalid public key"))
    }
}

/// One end of an established session.
pub struct SecureTransport {
    pub send_key: Vec<u8>,
    pub recv_key: Vec<u8>,
    pub send_counter: u64,
    pub expected_recv_counter: u64,
    pub client: bool,
}

/// One end of an established session, its keys taken as sequences.
pub struct Session {
    pub send_key: Seq<u8>,
    pub recv_key: Seq<u8>,
    pub send_counter: u64,
    pub expected_recv_counter: u64,
    pub client: bool,
}

impl View for SecureTransport {
    type V = Session;

    open spec fn view(&self) -> Session {
        Session {
            send_key: self.send_key@,
            recv_key: self.recv_key@,
            send_counter: self.send_counter,
            expected_recv_counter: self.expected_recv_counter,
            client: self.client,
        }
    }
}

/// The name of a direction.
pub open spec fn direction_name(from_client: bool) -> Seq<char> {
    if from_client {
        DIRECTION_CLIENT_TO_SERVER@
    } else {
        DIRECTION_SERVER_TO_CLIENT@
    }
}

/// The key of a direction.
pub open spec fn direction_key(shared: Seq<u8>, transcript: Seq<u8>, from_client: bool) -> Seq<u8> {
    hkdf_sha256_of(transcript, shared, direction_aad(from_client))
}

/// The session that one end starts from a shared secret and the transcript.
pub open spec fn session_of(shared: Seq<u8>, transcript: Seq<u8>, client: bool) -> Session {
    Session {
        send_key: direction_key(shared, transcript, client),
        recv_key: direction_key(shared, transcript, !client),
        send_counter: 0,
        expected_recv_counter: 0,
        client,
    }
}

/// Whether two ends belong together: what one sends with is what the other
/// receives with, and each expects the counter that the other sends next.
pub open spec fn mirrored(a: Session, b: Session) -> bool {
    &&& a.client != b.client
    &&& a.send_key == b.recv_key
    &&& a.recv_key == b.send_key
    &&& a.send_counter == b.expected_recv_counter
    &&& a.expected_recv_counter == b.send_counter
}

/// A client that has sent its hello.
pub struct ClientHandshake {
    pub secret: Vec<u8>,
    pub hello: Vec<u8>,
    pub pairing_secret: Option<String>,
}

/// A server that has answered a client's hello.
pub struct ServerHandshake {
    pub secret: Vec<u8>,
    pub client_hello: Vec<u8>,
    pub transcript: Vec<u8>,
    pub response: Vec<u8>,
    pub pairing_secret: Option<String>,
}

/// The secret that both proofs rest on when the client holds `pairing` and the
/// server's hello is `server_hello`: a client's secret counts only if the server
/// wants one.
pub open spec fn agreed_secret(pairing: Option<Seq<char>>, server_hello: Seq<u8>) -> Option<
    Seq<char>,
> {
    if server_hello[73] == 1 {
        pairing
    } else {
        None
    }
}

/// What a client that sent `hello` and holds `pairing` has against a server's answer.
pub open spec fn response_fault(
    hello: Seq<u8>,
    pairing: Option<Seq<char>>,
    response: Seq<u8>,
) -> Option<Seq<char>> {
    if !speaks_protocol(response, SERVER_HELLO_LEN as nat) {
        Some("incompatible or malformed secure LAN peer"@)
    } else if response[73] == 1 && pairing is None {
        Some("receiver requires a pairing PIN"@)
    } else if response.skip(HELLO_LEN as int) != proof_of(
        agreed_secret(pairing, response),
        "server".spec_bytes(),
        transcript_of(hello, response.take(HELLO_LEN as int)),
    ) {
        Some("pairing authentication failed"@)
    } else {
        None
    }
}

/// What a server that holds `pairing` has against a client's proof over `transcript`.
pub open spec fn proof_fault(
    transcript: Seq<u8>,
    pairing: Option<Seq<char>>,
    proof: Seq<u8>,
) -> Option<Seq<char>> {
    if proof.len() != PROOF_LEN {
        Some("malformed client handshake proof"@)
    } else if proof != proof_of(pairing, "client".spec_bytes(), transcript) {
        Some("pairing authentication failed"@)
    } else {
        None
    }
}

impl ClientHandshake {
    /// The secret is a key and the hello is the hello of that key.
    pub open spec fn wf(self) -> bool {
        &&& self.secret@.len() == 32
        &&& x25519_public_of(self.secret@).len() == 32
        &&& speaks_protocol(self.hello@, HELLO_LEN as nat)
        &&& (self.hello@[73] == 1) == (self.pairing_secret is Some)
        &&& exists|nonce: Seq<u8>|
            nonce.len() == 32 && self.hello@ == #[trigger] hello_bytes(
                x25519_public_of(self.secret@),
                nonce,
                self.pairing_secret is Some,
            )
    }

    /// A handshake with a given secret and nonce.
    pub fn with_random(secret: Vec<u8>, nonce: Vec<u8>, pairing_secret: Option<&str>) -> (h:
        ClientHandshake)
        requires
            secret@.len() == 32,
            nonce@.len() == 32,
        ensures
            h.wf(),
            h.secret@ == secret@,
            h.hello@ == hello_bytes(x25519_public_of(secret@), nonce@, pairing_secret is Some),
            owned_text(h.pairing_secret) == text_of(pairing_secret),
    {
        let public: Vec<u8> = x25519_public(secret.as_slice());
        let hello: Vec<u8> = make_hello(
            public.as_slice(),
            nonce.as_slice(),
            pairing_secret.is_some(),
        );
        proof {
            lemma_hello_layout(public@, nonce@, pairing_secret is Some);
        }
        let h: ClientHandshake = ClientHandshake {
            secret,
            hello,
            pairing_secret: own(pairing_secret),
        };
        assert(h.hello@ == hello_bytes(
            x25519_public_of(h.secret@),
            nonce@,
            h.pairing_secret is Some,
        ));
        h
    }

    /// Takes the server's answer. Gives the proof to send and the session that
    /// holds once it was sent.
    pub fn on_server_hello(self, server_hello: &[u8]) -> (r: Result<
        (Vec<u8>, SecureTransport),
        TransportError,
    >)
        requires
            self.wf(),
        ensures
            ({
                let pairing = owned_text(self.pairing_secret);
                let digest = transcript_of(self.hello@, server_hello@.take(HELLO_LEN as int));
                let fault = response_fault(self.hello@, pairing, server_hello@);
                match r {
                    Ok((proof, session)) => {
                        &&& fault is None
                        &&& proof@ == proof_of(
                            agreed_secret(pairing, server_hello@),
                            "client".spec_bytes(),
                            digest,
                        )
                        &&& proof@.len() == PROOF_LEN
                        &&& session@ == session_of(
                            x25519_shared_of(self.secret@, server_hello@.subrange(9, 41)),
                            digest,
                            true,
                        )
                        &&& forall|server_secret: Seq<u8>|
                            server_secret.len() == 32 && #[trigger] x25519_public_of(server_secret)
                                == server_hello@.subrange(9, 41) ==> mirrored(
                                session@,
                                session_of(
                                    x25519_shared_of(server_secret, x25519_public_of(self.secret@)),
                                    digest,
                                    false,
                                ),
                            )
                    },
                    Err(error) => fault is Some && error@ == handshake_failure(fault->Some_0),
                }
            }),
    {
        if !check_hello(server_hello, SERVER_HELLO_LEN) {
            return Err(handshake_error("incompatible or malformed secure LAN peer"));
        }
        let server_requires_pin: bool = server_hello[73] == 1;
        if server_requires_pin && self.pairing_secret.is_none() {
            return Err(handshake_error("receiver requires a pairing PIN"));
        }
        let proof_secret: Option<&str> = if server_requires_pin {
            borrow(&self.pairing_secret)
        } else {
            None
        };
        let prefix: &[u8] = vstd::slice::slice_subrange(server_hello, 0, HELLO_LEN);
        let server_proof: &[u8] = vstd::slice::slice_subrange(
            server_hello,
            HELLO_LEN,
            SERVER_HELLO_LEN,
        );
        assert(prefix@ =~= server_hello@.take(HELLO_LEN as int));
        assert(server_proof@ =~= server_hello@.skip(HELLO_LEN as int));
        let digest: Vec<u8> = transcript(self.hello.as_slice(), prefix);
        match verify_proof(proof_secret, "server".as_bytes(), digest.as_slice(), server_proof) {
            Err(error) => return Err(error),
            Ok(()) => {},
        }
        let proof: Vec<u8> = match make_proof(
            proof_secret,
            "client".as_bytes(),
            digest.as_slice(),
        ) {
            Ok(proof) => proof,
            Err(error) => return Err(error),
        };
        let server_public: Vec<u8> = match public_key(
            vstd::slice::slice_subrange(server_hello, 9, 41),
        ) {
            Ok(key) => key,
            Err(error) => return Err(error),
        };
        let shared: Vec<u8> = x25519_shared(self.secret.as_slice(), server_public.as_slice());
        match SecureTransport::from_shared(shared.as_slice(), digest.as_slice(), true) {
            Ok(session) => Ok((proof, session)),
            Err(error) => Err(error),
        }
    }
}

impl ServerHandshake {
    /// The secret is a key, and the transcript is over the client's hello and the
    /// server's.
    pub open spec fn wf(self) -> bool {
        &&& self.secret@.len() == 32
        &&& speaks_protocol(self.client_hello@, HELLO_LEN as nat)
        &&& self.response@.len() == SERVER_HELLO_LEN
        &&& self.transcript@ == transcript_of(
            self.client_hello@,
            self.response@.take(HELLO_LEN as int),
        )
    }

    /// Answers a client's hello with a given secret and nonce.
    pub fn with_random(
        secret: Vec<u8>,
        nonce: Vec<u8>,
        client_hello: &[u8],
        pairing_secret: Option<&str>,
    ) -> (r: Result<ServerHandshake, TransportError>)
        requires
            secret@.len() == 32,
            nonce@.len() == 32,
        ensures
            ({
                let prefix = hello_bytes(
                    x25519_public_of(secret@),
                    nonce@,
                    pairing_secret is Some,
                );
                let digest = transcript_of(client_hello@, prefix);
                match r {
                    Ok(h) => {
                        &&& hello_fault(client_hello@, pairing_secret is Some) is None
                        &&& h.wf()
                        &&& h.secret@ == secret@
                        &&& h.client_hello@ == client_hello@
                        &&& h.transcript@ == digest
                        &&& prefix.len() == HELLO_LEN
                        &&& h.response@ == prefix + proof_of(
                            text_of(pairing_secret),
                            "server".spec_bytes(),
                            digest,
                        )
                        &&& owned_text(h.pairing_secret) == text_of(pairing_secret)
                    },
                    Err(error) => {
                        &&& hello_fault(client_hello@, pairing_secret is Some) is Some
                        &&& error@ == handshake_failure(
                            hello_fault(client_hello@, pairing_secret is Some)->Some_0,
                        )
                    },
                }
            }),
    {
        match check_client_hello(client_hello, pairing_secret.is_some()) {
            Ok(()) => {},
            Err(error) => return Err(error),
        }
        let public: Vec<u8> = x25519_public(secret.as_slice());
        let prefix: Vec<u8> = make_hello(
            public.as_slice(),
            nonce.as_slice(),
            pairing_secret.is_some(),
        );
        let digest: Vec<u8> = transcript(client_hello, prefix.as_slice());
        let proof: Vec<u8> = match make_proof(
            pairing_secret,
            "server".as_bytes(),
            digest.as_slice(),
        ) {
            Ok(proof) => proof,
            Err(error) => return Err(error),
        };
        let ghost hello = prefix@;
        proof {
            lemma_hello_layout(public@, nonce@, pairing_secret is Some);
        }
        let mut response: Vec<u8> = prefix;
        push_all(&mut response, proof.as_slice());
        assert(response@.take(HELLO_LEN as int) =~= hello);
        Ok(
            ServerHandshake {
                secret,
                client_hello: vstd::slice::slice_to_vec(client_hello),
                transcript: digest,
                response,
                pairing_secret: own(pairing_secret),
            },
        )
    }

    /// Takes the client's proof and gives the session.
    pub fn on_client_proof(self, client_proof: &[u8]) -> (r: Result<
        SecureTransport,
        TransportError,
    >)
        requires
            self.wf(),
        ensures
            ({
                let pairing = owned_text(self.pairing_secret);
                let fault = proof_fault(self.transcript@, pairing, client_proof@);
                match r {
                    Ok(session) => {
                        &&& fault is None
                        &&& session@ == session_of(
                            x25519_shared_of(self.secret@, self.client_hello@.subrange(9, 41)),
                            self.transcript@,
                            false,
                        )
                        &&& forall|client_secret: Seq<u8>|
                            client_secret.len() == 32 && #[trigger] x25519_public_of(client_secret)
                                == self.client_hello@.subrange(9, 41) ==> mirrored(
                                session@,
                                session_of(
                                    x25519_shared_of(client_secret, x25519_public_of(self.secret@)),
                                    self.transcript@,
                                    true,
                                ),
                            )
                    },
                    Err(error) => fault is Some && error@ == handshake_failure(fault->Some_0),
                }
            }),
    {
        if client_proof.len() != PROOF_LEN {
            return Err(handshake_error("malformed client handshake proof"));
        }
        match verify_proof(
            borrow(&self.pairing_secret),
            "client".as_bytes(),
            self.transcript.as_slice(),
            client_proof,
        ) {
            Err(error) => return Err(error),
            Ok(()) => {},
        }
        let client_public: Vec<u8> = match public_key(
            vstd::slice::slice_subrange(self.client_hello.as_slice(), 9, 41),
        ) {
            Ok(key) => key,
            Err(error) => return Err(error),
        };
        let shared: Vec<u8> = x25519_shared(self.secret.as_slice(), client_public.as_slice());
        SecureTransport::from_shared(shared.as_slice(), self.transcript.as_slice(), false)
    }
}

impl SecureTransport {
    /// Starts a handshake as the client, with a fresh secret and nonce. The hello
    /// of the result is the first thing to send.
    pub fn connect(pairing_secret: Option<&str>) -> (r: Result<ClientHandshake, TransportError>)
        ensures
            match r {
                Ok(h) => h.wf() && owned_text(h.pairing_secret) == text_of(pairing_secret),
                Err(error) => error@ == handshake_failure(NO_RANDOM_BYTES@),
            },
    {
        let secret: Vec<u8> = match fresh_bytes() {
            Ok(bytes) => bytes,
            Err(error) => return Err(error),
        };
        let nonce: Vec<u8> = match fresh_bytes() {
            Ok(bytes) => bytes,
            Err(error) => return Err(error),
        };
        Ok(ClientHandshake::with_random(secret, nonce, pairing_secret))
    }

    /// Answers a client's hello, with a fresh secret and nonce. The response of
    /// the result is what to send.
    pub fn accept(client_hello: &[u8], pairing_secret: Option<&str>) -> (r: Result<
        ServerHandshake,
        TransportError,
    >)
        ensures
            match r {
                Ok(h) => {
                    &&& hello_fault(client_hello@, pairing_secret is Some) is None
                    &&& h.wf()
                    &&& h.client_hello@ == client_hello@
                    &&& owned_text(h.pairing_secret) == text_of(pairing_secret)
                    &&& exists|nonce: Seq<u8>|
                        nonce.len() == 32 && h.response@.take(HELLO_LEN as int)
                            == #[trigger] hello_bytes(
                            x25519_public_of(h.secret@),
                            nonce,
                            pairing_secret is Some,
                        )
                    &&& h.response@.skip(HELLO_LEN as int) == proof_of(
                        text_of(pairing_secret),
                        "server".spec_bytes(),
                        h.transcript@,
                    )
                },
                Err(error) => match hello_fault(client_hello@, pairing_secret is Some) {
                    Some(message) => error@ == handshake_failure(message),
                    None => error@ == handshake_failure(NO_RANDOM_BYTES@),
                },
            },
    {
        match check_client_hello(client_hello, pairing_secret.is_some()) {
            Ok(()) => {},
            Err(error) => return Err(error),
        }
        let secret: Vec<u8> = match fresh_bytes() {
            Ok(bytes) => bytes,
            Err(error) => return Err(error),
        };
        let nonce: Vec<u8> = match fresh_bytes() {
            Ok(bytes) => bytes,
            Err(error) => return Err(error),
        };
        let ghost s = secret@;
        let ghost n = nonce@;
        let r: Result<ServerHandshake, TransportError> = ServerHandshake::with_random(
            secret,
            nonce,
            client_hello,
            pairing_secret,
        );
        proof {
            let h = r->Ok_0;
            let prefix = hello_bytes(x25519_public_of(s), n, pairing_secret is Some);
            assert(h.response@.take(HELLO_LEN as int) =~= prefix);
            assert(h.response@.skip(HELLO_LEN as int) =~= proof_of(
                text_of(pairing_secret),
                "server".spec_bytes(),
                h.transcript@,
            ));
        }
        r
    }

    /// The session of one end: a key for each direction, both counters at zero.
    pub fn from_shared(shared: &[u8], transcript: &[u8], client: bool) -> (r: Result<
        SecureTransport,
        TransportError,
    >)
        ensures
            r is Ok,
            r->Ok_0@ == session_of(shared@, transcript@, client),
    {
        let client_key: Vec<u8> = match hkdf_sha256(
            transcript,
            shared,
            AAD_CLIENT_TO_SERVER.as_bytes(),
        ) {
            Ok(key) => key,
            Err(_) => return Err(handshake_error("could not derive client encryption key")),
        };
        let server_key: Vec<u8> = match hkdf_sha256(
            transcript,
            shared,
            AAD_SERVER_TO_CLIENT.as_bytes(),
        ) {
            Ok(key) => key,
            Err(_) => return Err(handshake_error("could not derive server encryption key")),
        };
        if client {
            Ok(
                SecureTransport {
                    send_key: client_key,
                    recv_key: server_key,
                    send_counter: 0,
                    expected_recv_counter: 0,
                    client,
                },
            )
        } else {
            Ok(
                SecureTransport {
                    send_key: server_key,
                    recv_key: client_key,
                    send_counter: 0,
                    expected_recv_counter: 0,
                    client,
                },
            )
        }
    }
}

/// What a session that receives makes of an envelope and of what its cipher said.
pub enum Received<S = String, B = Vec<u8>> {
    /// The plaintext of the next frame.
    Plain(B),
    /// The frame is refused.
    Refused(TransportError<S>),
    /// The frame is refused and the transport below must be closed.
    Exhausted(TransportError<S>),
}

impl View for Received {
    type V = Received<Seq<char>, Seq<u8>>;

    open spec fn view(&self) -> Received<Seq<char>, Seq<u8>> {
        match self {
            Received::Plain(bytes) => Received::Plain(bytes@),
            Received::Refused(error) => Received::Refused(error@),
            Received::Exhausted(error) => Received::Exhausted(error@),
        }
    }
}

/// An envelope whose counter is the one that is due.
pub struct Incoming {
    /// What the cipher is to open.
    pub frame: EncryptedFrame,
    /// What was authenticated with it.
    pub aad: Vec<u8>,
}

/// The message of a counter that has run out.
pub open spec fn exhausted_message(from_client: bool, counter: u64) -> Seq<char> {
    "secure frame counter exhausted: direction="@ + direction_name(from_client) + " counter="@
        + decimal(counter as nat)
}

/// The message of a plaintext that the cipher could not encrypt.
pub open spec fn encrypt_message(
    from_client: bool,
    counter: u64,
    plaintext_len: nat,
    reason: Seq<char>,
) -> Seq<char> {
    "failed to encrypt secure frame: direction="@ + direction_name(from_client) + " counter="@
        + decimal(counter as nat) + " plaintext_len="@ + decimal(plaintext_len) + " error="@
        + reason
}

/// The message of an envelope whose counter is not the one that is due.
pub open spec fn counter_message(
    from_client: bool,
    expected: u64,
    received: nat,
    envelope_len: nat,
) -> Seq<char> {
    "unexpected encrypted frame counter: direction="@ + direction_name(from_client)
        + " expected_counter="@ + decimal(expected as nat) + " received_counter="@ + decimal(
        received,
    ) + " envelope_len="@ + decimal(envelope_len) + " ciphertext_len="@ + decimal(
        (envelope_len - ENVELOPE_HEADER_LEN) as nat,
    )
}

/// The message of a frame that the cipher did not accept.
pub open spec fn authentication_message(
    from_client: bool,
    counter: u64,
    envelope_len: nat,
    reason: Seq<char>,
) -> Seq<char> {
    "failed to authenticate encrypted frame: direction="@ + direction_name(from_client)
        + " counter="@ + decimal(counter as nat) + " expected_counter="@ + decimal(counter as nat)
        + " envelope_len="@ + decimal(envelope_len) + " ciphertext_len="@ + decimal(
        (envelope_len - ENVELOPE_HEADER_LEN) as nat,
    ) + " error="@ + reason
}

/// Why a session refuses an envelope before its cipher sees it, if it does.
pub open spec fn refusal(session: Session, envelope: Seq<u8>) -> Option<Seq<char>> {
    if envelope_fault(envelope) is Some {
        envelope_fault(envelope)
    } else if counter_of(envelope) != session.expected_recv_counter {
        Some(
            counter_message(
                !session.client,
                session.expected_recv_counter,
                counter_of(envelope),
                envelope.len(),
            ),
        )
    } else {
        None
    }
}

/// What a session gives for an envelope that it does not refuse, when the cipher
/// says `decrypted`.
pub open spec fn reception(
    session: Session,
    envelope_len: nat,
    decrypted: Result<Seq<u8>, Seq<char>>,
) -> Received<Seq<char>, Seq<u8>> {
    match decrypted {
        Err(reason) => Received::Refused(
            frame_failure(
                authentication_message(
                    !session.client,
                    session.expected_recv_counter,
                    envelope_len,
                    reason,
                ),
            ),
        ),
        Ok(plaintext) => if session.expected_recv_counter == u64::MAX {
            Received::Exhausted(
                frame_failure(exhausted_message(!session.client, session.expected_recv_counter)),
            )
        } else {
            Received::Plain(plaintext)
        },
    }
}

/// What a session makes of an envelope when the cipher says `decrypted` of it, and
/// the session afterwards.
pub open spec fn receiving(
    session: Session,
    envelope: Seq<u8>,
    decrypted: Result<Seq<u8>, Seq<char>>,
) -> (Session, Received<Seq<char>, Seq<u8>>) {
    match refusal(session, envelope) {
        Some(message) => (session, Received::Refused(frame_failure(message))),
        None => {
            let received = reception(session, envelope.len(), decrypted);
            (
                if received is Plain {
                    after_recv(session)
                } else {
                    session
                },
                received,
            )
        },
    }
}

/// A session after an envelope was given to the transport below, which delivered it or
/// not.
pub open spec fn sending(session: Session, delivered: bool) -> Session {
    if delivered && session.send_counter < u64::MAX {
        after_send(session)
    } else {
        session
    }
}

/// A session after it has sent a frame.
pub open spec fn after_send(session: Session) -> Session {
    Session { send_counter: (session.send_counter + 1) as u64, ..session }
}

/// A session after it has taken a frame.
pub open spec fn after_recv(session: Session) -> Session {
    Session { expected_recv_counter: (session.expected_recv_counter + 1) as u64, ..session }
}

/// What a cipher's answer holds.
pub open spec fn answer(decrypted: Result<Vec<u8>, String>) -> Result<Seq<u8>, Seq<char>> {
    match decrypted {
        Ok(bytes) => Ok(bytes@),
        Err(reason) => Err(reason@),
    }
}

/// The name of a direction.
fn name_of_direction(from_client: bool) -> (name: &'static str)
    ensures
        name@ == direction_name(from_client),
{
    if from_client {
        DIRECTION_CLIENT_TO_SERVER
    } else {
        DIRECTION_SERVER_TO_CLIENT
    }
}

/// The bytes that authenticate a direction.
fn aad_of_direction(from_client: bool) -> (aad: &'static [u8])
    ensures
        aad@ == direction_aad(from_client),
{
    if from_client {
        AAD_CLIENT_TO_SERVER.as_bytes()
    } else {
        AAD_SERVER_TO_CLIENT.as_bytes()
    }
}

fn exhausted_error(from_client: bool, counter: u64) -> (error: TransportError)
    ensures
        error@ == frame_failure(exhausted_message(from_client, counter)),
{
    let mut m: String = "secure frame counter exhausted: direction=".to_string();
    m.append(name_of_direction(from_client));
    m.append(" counter=");
    push_decimal(&mut m, counter);
    secure_frame_error(m.as_str())
}

impl SecureTransport {
    /// What is to be authenticated with the next frame. When the counter has run
    /// out there is no next frame: the error is returned and the transport below
    /// must be closed.
    pub fn begin_send(&self) -> (r: Result<Vec<u8>, TransportError>)
        ensures
            match r {
                Ok(aad) => self.send_counter < u64::MAX && aad@ == frame_aad(
                    direction_aad(self.client),
                    self.send_counter,
                ),
                Err(error) => self.send_counter == u64::MAX && error@ == frame_failure(
                    exhausted_message(self.client, self.send_counter),
                ),
            },
    {
        if self.send_counter == u64::MAX {
            return Err(exhausted_error(self.client, self.send_counter));
        }
        Ok(build_frame_aad(aad_of_direction(self.client), self.send_counter))
    }

    /// The envelope of the next frame, made of what the cipher said of the
    /// plaintext.
    pub fn seal(&self, plaintext_len: usize, encrypted: Result<EncryptedFrame, String>) -> (r:
        Result<Vec<u8>, TransportError>)
        ensures
            match encrypted {
                Err(reason) => r is Err && r->Err_0@ == frame_failure(
                    encrypt_message(self.client, self.send_counter, plaintext_len as nat, reason@),
                ),
                Ok(frame) => {
                    let nonce = base64_bytes(frame.nonce@);
                    if nonce is Some && nonce->Some_0.len() == NONCE_LEN {
                        r is Ok && r->Ok_0@ == envelope_bytes(
                            self.send_counter,
                            nonce->Some_0,
                            frame.ciphertext@,
                        )
                    } else {
                        r is Err && r->Err_0@ == frame_failure("invalid encrypted-frame nonce"@)
                    }
                },
            },
    {
        match encrypted {
            Ok(frame) => encode_envelope(self.send_counter, &frame),
            Err(reason) => {
                let mut m: String = "failed to encrypt secure frame: direction=".to_string();
                m.append(name_of_direction(self.client));
                m.append(" counter=");
                push_decimal(&mut m, self.send_counter);
                m.append(" plaintext_len=");
                push_decimal(&mut m, plaintext_len as u64);
                m.append(" error=");
                m.append(reason.as_str());
                Err(secure_frame_error(m.as_str()))
            },
        }
    }

    /// Ends the sending of a frame: `delivered` is what the transport below said when
    /// it was given the envelope. Only a delivered envelope uses its counter up.
    pub fn send(&mut self, delivered: Result<(), TransportError>) -> (r: Result<
        (),
        TransportError,
    >)
        ensures
            final(self)@ == sending(old(self)@, delivered is Ok),
            match r {
                Ok(_) => old(self).send_counter < u64::MAX && delivered is Ok,
                Err(error) => if old(self).send_counter == u64::MAX {
                    error@ == frame_failure(exhausted_message(old(self).client, u64::MAX))
                } else {
                    delivered is Err && error@ == delivered->Err_0@
                },
            },
    {
        if self.send_counter == u64::MAX {
            return Err(exhausted_error(self.client, self.send_counter));
        }
        match delivered {
            Ok(()) => {
                self.send_counter = self.send_counter + 1;
                Ok(())
            },
            Err(error) => Err(error),
        }
    }

    /// Refuses an envelope that is not the next one.
    fn check(&self, envelope: &[u8]) -> (r: Result<(), TransportError>)
        ensures
            match r {
                Ok(_) => refusal(self@, envelope@) is None,
                Err(error) => refusal(self@, envelope@) is Some && error@ == frame_failure(
                    refusal(self@, envelope@)->Some_0,
                ),
            },
    {
        let counter: u64 = match check_envelope(envelope) {
            Ok(counter) => counter,
            Err(error) => return Err(error),
        };
        if counter != self.expected_recv_counter {
            let mut m: String = "unexpected encrypted frame counter: direction=".to_string();
            m.append(name_of_direction(!self.client));
            m.append(" expected_counter=");
            push_decimal(&mut m, self.expected_recv_counter);
            m.append(" received_counter=");
            push_decimal(&mut m, counter);
            m.append(" envelope_len=");
            push_decimal(&mut m, envelope.len() as u64);
            m.append(" ciphertext_len=");
            push_decimal(&mut m, (envelope.len() - ENVELOPE_HEADER_LEN) as u64);
            return Err(secure_frame_error(m.as_str()));
        }
        Ok(())
    }

    /// Takes an envelope apart, if it is the next one.
    pub fn open(&self, envelope: &[u8]) -> (r: Result<Incoming, TransportError>)
        ensures
            match r {
                Ok(incoming) => {
                    &&& refusal(self@, envelope@) is None
                    &&& base64_bytes(incoming.frame.nonce@) == Some(envelope@.subrange(9, 21))
                    &&& incoming.frame.ciphertext@ == envelope@.skip(ENVELOPE_HEADER_LEN as int)
                    &&& incoming.aad@ == frame_aad(
                        direction_aad(!self.client),
                        self.expected_recv_counter,
                    )
                },
                Err(error) => refusal(self@, envelope@) is Some && error@ == frame_failure(
                    refusal(self@, envelope@)->Some_0,
                ),
            },
    {
        match self.check(envelope) {
            Ok(()) => {},
            Err(error) => return Err(error),
        }
        match decode_envelope(envelope) {
            Ok(decoded) => Ok(
                Incoming {
                    frame: decoded.frame,
                    aad: build_frame_aad(aad_of_direction(!self.client), decoded.counter),
                },
            ),
            Err(error) => Err(error),
        }
    }

    /// Takes an envelope: `decrypted` is what the cipher said of the frame that `open`
    /// gave of it. Only a frame that is taken uses its counter up.
    pub fn recv(&mut self, envelope: &[u8], decrypted: Result<Vec<u8>, String>) -> (received:
        Received)
        ensures
            (final(self)@, received@) == receiving(old(self)@, envelope@, answer(decrypted)),
    {
        match self.check(envelope) {
            Ok(()) => {},
            Err(error) => return Received::Refused(error),
        }
        match decrypted {
            Err(reason) => {
                let mut m: String = "failed to authenticate encrypted frame: direction=".to_string();
                m.append(name_of_direction(!self.client));
                m.append(" counter=");
                push_decimal(&mut m, self.expected_recv_counter);
                m.append(" expected_counter=");
                push_decimal(&mut m, self.expected_recv_counter);
                m.append(" envelope_len=");
                push_decimal(&mut m, envelope.len() as u64);
                m.append(" ciphertext_len=");
                push_decimal(&mut m, (envelope.len() - ENVELOPE_HEADER_LEN) as u64);
                m.append(" error=");
                m.append(reason.as_str());
                Received::Refused(secure_frame_error(m.as_str()))
            },
            Ok(plaintext) => {
                if self.expected_recv_counter == u64::MAX {
                    return Received::Exhausted(
                        exhausted_error(!self.client, self.expected_recv_counter),
                    );
                }
                self.expected_recv_counter = self.expected_recv_counter + 1;
                Received::Plain(plaintext)
            },
        }
    }
}

/// What a wait for a handshake frame does when the transport has none.
pub enum HandshakeWait {
    /// Sleep for five milliseconds and look again.
    Sleep,
    /// Give the handshake up.
    TimedOut(TransportError),
}

/// How long a handshake frame is waited for, in nanoseconds.
pub const HANDSHAKE_TIMEOUT_NS: u64 = 10_000_000_000;

/// Decides what to do when no handshake frame is there at `now_ns`, on a wait that
/// ends at `deadline_ns`.
pub fn recv_handshake(now_ns: u64, deadline_ns: u64) -> (wait: HandshakeWait)
    ensures
        match wait {
            HandshakeWait::Sleep => now_ns < deadline_ns,
            HandshakeWait::TimedOut(error) => now_ns >= deadline_ns && error@ == handshake_failure(
                "secure LAN handshake timed out"@,
            ),
        },
{
    if now_ns < deadline_ns {
        HandshakeWait::Sleep
    } else {
        HandshakeWait::TimedOut(handshake_error("secure LAN handshake timed out"))
    }
}

/// A server's answer to a hello, in terms of its public key, its nonce and its secret.
pub open spec fn response_of(
    hello: Seq<u8>,
    public: Seq<u8>,
    nonce: Seq<u8>,
    secret: Option<Seq<char>>,
) -> Seq<u8> {
    let prefix = hello_bytes(public, nonce, secret is Some);
    prefix + proof_of(secret, "server".spec_bytes(), transcript_of(hello, prefix))
}

/// The layout of a server's answer.
proof fn lemma_response_layout(
    hello: Seq<u8>,
    public: Seq<u8>,
    nonce: Seq<u8>,
    secret: Option<Seq<char>>,
)
    requires
        public.len() == 32,
        nonce.len() == 32,
        response_of(hello, public, nonce, secret).len() == SERVER_HELLO_LEN,
    ensures
        ({
            let prefix = hello_bytes(public, nonce, secret is Some);
            let response = response_of(hello, public, nonce, secret);
            &&& speaks_protocol(response, SERVER_HELLO_LEN as nat)
            &&& (response[73] == 1) == (secret is Some)
            &&& response.take(HELLO_LEN as int) == prefix
            &&& response.subrange(9, 41) == public
            &&& response.skip(HELLO_LEN as int) == proof_of(
                secret,
                "server".spec_bytes(),
                transcript_of(hello, prefix),
            )
        }),
{
    lemma_hello_layout(public, nonce, secret is Some);
    let prefix = hello_bytes(public, nonce, secret is Some);
    let response = response_of(hello, public, nonce, secret);
    assert(response.take(HELLO_LEN as int) =~= prefix);
    assert(response.take(8) =~= prefix.take(8));
    assert(response.subrange(9, 41) =~= prefix.subrange(9, 41));
    assert(response.skip(HELLO_LEN as int) =~= proof_of(
        secret,
        "server".spec_bytes(),
        transcript_of(hello, prefix),
    ));
    assert(response[73] == prefix[73]);
}

/// Peers that hold the same pairing secret, or a server that wants none, complete
/// the handshake: each hello is one that the other end takes, and each proof is
/// the one that the other end asks for. That an answer and a proof have their lengths is
/// what the handshakes promise of those that they make.
pub proof fn law_handshake_completes(
    client_public: Seq<u8>,
    client_nonce: Seq<u8>,
    client_secret: Option<Seq<char>>,
    server_public: Seq<u8>,
    server_nonce: Seq<u8>,
    server_secret: Option<Seq<char>>,
)
    requires
        client_public.len() == 32,
        client_nonce.len() == 32,
        server_public.len() == 32,
        server_nonce.len() == 32,
        server_secret matches Some(s) ==> client_secret matches Some(c) && proof_key(c)
            == proof_key(s),
        response_of(
            hello_bytes(client_public, client_nonce, client_secret is Some),
            server_public,
            server_nonce,
            server_secret,
        ).len() == SERVER_HELLO_LEN,
    ensures
        ({
            let hello = hello_bytes(client_public, client_nonce, client_secret is Some);
            let prefix = hello_bytes(server_public, server_nonce, server_secret is Some);
            let digest = transcript_of(hello, prefix);
            let response = response_of(hello, server_public, server_nonce, server_secret);
            let agreed = agreed_secret(client_secret, response);
            let proof = proof_of(agreed, "client".spec_bytes(), digest);
            // The server takes the hello.
            &&& hello_fault(hello, server_secret is Some) is None
            &&& hello.subrange(9, 41) == client_public
            // The client takes the response.
            &&& response_fault(hello, client_secret, response) is None
            &&& response.take(HELLO_LEN as int) == prefix
            &&& response.subrange(9, 41) == server_public
            // The server takes the client's proof.
            &&& proof.len() == PROOF_LEN ==> proof_fault(digest, server_secret, proof) is None
        }),
{
    lemma_hello_layout(client_public, client_nonce, client_secret is Some);
    lemma_hello_layout(server_public, server_nonce, server_secret is Some);
    let hello = hello_bytes(client_public, client_nonce, client_secret is Some);
    lemma_response_layout(hello, server_public, server_nonce, server_secret);
}

/// Peers whose secrets do not agree do not complete the handshake. A server that wants a
/// secret refuses the hello of a client without one. Where both hold one and their proofs
/// differ, the client refuses the server's answer, and the server the client's proof.
pub proof fn law_disagreeing_secrets_are_refused(
    client_public: Seq<u8>,
    client_nonce: Seq<u8>,
    client_secret: Option<Seq<char>>,
    server_public: Seq<u8>,
    server_nonce: Seq<u8>,
    server_secret: Seq<char>,
)
    requires
        client_public.len() == 32,
        client_nonce.len() == 32,
        server_public.len() == 32,
        server_nonce.len() == 32,
        response_of(
            hello_bytes(client_public, client_nonce, client_secret is Some),
            server_public,
            server_nonce,
            Some(server_secret),
        ).len() == SERVER_HELLO_LEN,
    ensures
        ({
            let hello = hello_bytes(client_public, client_nonce, client_secret is Some);
            let prefix = hello_bytes(server_public, server_nonce, true);
            let digest = transcript_of(hello, prefix);
            let response = response_of(hello, server_public, server_nonce, Some(server_secret));
            let proof = proof_of(client_secret, "client".spec_bytes(), digest);
            let refused = Some("pairing authentication failed"@);
            &&& client_secret is None ==> {
                &&& hello_fault(hello, true) == Some("pairing PIN required"@)
                &&& response_fault(hello, client_secret, response) == Some(
                    "receiver requires a pairing PIN"@,
                )
            }
            &&& client_secret is Some && proof_of(client_secret, "server".spec_bytes(), digest)
                != proof_of(Some(server_secret), "server".spec_bytes(), digest)
                ==> response_fault(hello, client_secret, response) == refused
            &&& proof != proof_of(Some(server_secret), "client".spec_bytes(), digest) ==> {
                &&& proof_fault(digest, Some(server_secret), proof) is Some
                &&& proof.len() == PROOF_LEN ==> proof_fault(digest, Some(server_secret), proof)
                    == refused
            }
        }),
{
    lemma_hello_layout(client_public, client_nonce, client_secret is Some);
    lemma_hello_layout(server_public, server_nonce, true);
    let hello = hello_bytes(client_public, client_nonce, client_secret is Some);
    lemma_response_layout(hello, server_public, server_nonce, Some(server_secret));
}

/// Upper and lower case, and white space around a pairing secret, do not matter:
/// secrets that agree without them give the same proofs.
pub proof fn law_pairing_secret_ignores_case_and_space(
    a: Seq<char>,
    b: Seq<char>,
    role: Seq<u8>,
    transcript: Seq<u8>,
)
    requires
        ascii_uppercase(trimmed(a)) == ascii_uppercase(trimmed(b)),
    ensures
        proof_of(Some(a), role, transcript) == proof_of(Some(b), role, transcript),
{
}

/// A frame that one end sends is taken by the other, with the same nonce, the same
/// ciphertext and the same authenticated bytes, and afterwards the ends belong
/// together again.
pub proof fn law_frames_open_in_order(
    sender: Session,
    receiver: Session,
    nonce: Seq<u8>,
    ciphertext: Seq<u8>,
    plaintext: Seq<u8>,
)
    requires
        mirrored(sender, receiver),
        sender.send_counter < u64::MAX,
        nonce.len() == NONCE_LEN,
        ciphertext.len() >= 16,
    ensures
        ({
            let envelope = envelope_bytes(sender.send_counter, nonce, ciphertext);
            &&& refusal(receiver, envelope) is None
            &&& envelope.subrange(9, 21) == nonce
            &&& envelope.skip(ENVELOPE_HEADER_LEN as int) == ciphertext
            &&& frame_aad(direction_aad(!receiver.client), receiver.expected_recv_counter)
                == frame_aad(direction_aad(sender.client), sender.send_counter)
            &&& receiving(receiver, envelope, Ok(plaintext)) == (
                after_recv(receiver),
                Received::<Seq<char>, Seq<u8>>::Plain(plaintext),
            )
            &&& mirrored(after_send(sender), after_recv(receiver))
        }),
{
    law_envelope_round_trip(sender.send_counter, nonce, ciphertext);
}

/// A receiver takes no envelope twice, and takes none out of turn: one whose
/// counter is not the one that is due is refused before the cipher sees it.
pub proof fn law_frames_out_of_turn_are_refused(session: Session, envelope: Seq<u8>)
    ensures
        counter_of(envelope) != session.expected_recv_counter ==> refusal(session, envelope)
            is Some,
        refusal(session, envelope) is None && session.expected_recv_counter < u64::MAX ==> refusal(
            after_recv(session),
            envelope,
        ) is Some,
{
}

/// When frames are lost or swapped, the later frame is refused: of what a sender
/// seals from some point on, a receiver that belongs to that point takes only the
/// first.
pub proof fn law_frames_after_a_gap_are_refused(
    sender: Session,
    receiver: Session,
    later: u64,
    nonce: Seq<u8>,
    ciphertext: Seq<u8>,
)
    requires
        mirrored(sender, receiver),
        later > sender.send_counter,
        nonce.len() == NONCE_LEN,
        ciphertext.len() >= 16,
    ensures
        refusal(receiver, envelope_bytes(later, nonce, ciphertext)) == Some(
            counter_message(
                sender.client,
                sender.send_counter,
                later as nat,
                (ENVELOPE_HEADER_LEN + ciphertext.len()) as nat,
            ),
        ),
{
    law_envelope_round_trip(later, nonce, ciphertext);
    lemma_be_bytes_len(later as nat, 8);
}

/// A refused envelope does no harm: one that is none, or whose counter is not the one
/// that is due, is answered with the error that says so, whatever a cipher would have
/// made of it, and the session is as it was; the envelope that is due is still taken
/// after it.
pub proof fn law_refused_frames_do_no_harm(
    session: Session,
    refused: Seq<u8>,
    said: Result<Seq<u8>, Seq<char>>,
    nonce: Seq<u8>,
    ciphertext: Seq<u8>,
    plaintext: Seq<u8>,
)
    requires
        envelope_fault(refused) is Some || counter_of(refused) != session.expected_recv_counter,
        session.expected_recv_counter < u64::MAX,
        nonce.len() == NONCE_LEN,
        ciphertext.len() >= 16,
    ensures
        receiving(session, refused, said).0 == session,
        receiving(session, refused, said).1 == Received::<Seq<char>, Seq<u8>>::Refused(
            frame_failure(
                match envelope_fault(refused) {
                    Some(message) => message,
                    None => counter_message(
                        !session.client,
                        session.expected_recv_counter,
                        counter_of(refused),
                        refused.len(),
                    ),
                },
            ),
        ),
        receiving(
            receiving(session, refused, said).0,
            envelope_bytes(session.expected_recv_counter, nonce, ciphertext),
            Ok(plaintext),
        ) == (after_recv(session), Received::<Seq<char>, Seq<u8>>::Plain(plaintext)),
{
    law_envelope_round_trip(session.expected_recv_counter, nonce, ciphertext);
}

/// A frame that the cipher does not accept does no harm either: the session is as it
/// was.
pub proof fn law_unauthentic_frames_do_no_harm(
    session: Session,
    envelope: Seq<u8>,
    reason: Seq<char>,
)
    ensures
        receiving(session, envelope, Err(reason)).0 == session,
        receiving(session, envelope, Err(reason)).1 is Refused,
{
}

/// A session after envelopes were given to the transport below one after another, each
/// delivered or not.
pub open spec fn sending_all(session: Session, delivered: Seq<bool>) -> Session
    decreases delivered.len(),
{
    if delivered.len() == 0 {
        session
    } else {
        sending(sending_all(session, delivered.drop_last()), delivered.last())
    }
}

/// How many envelopes were delivered.
pub open spec fn delivered_count(delivered: Seq<bool>) -> nat
    decreases delivered.len(),
{
    if delivered.len() == 0 {
        0
    } else {
        delivered_count(delivered.drop_last()) + if delivered.last() {
            1nat
        } else {
            0nat
        }
    }
}

/// Frames are numbered by what was delivered: after some envelopes the next frame's
/// envelope starts with the version and the number of envelopes delivered before it,
/// most significant byte first. An envelope that was not delivered leaves its number to
/// the next one, and no number is used past the last.
pub proof fn law_frames_are_numbered_as_delivered(
    session: Session,
    delivered: Seq<bool>,
    nonce: Seq<u8>,
    ciphertext: Seq<u8>,
)
    ensures
        ({
            let after = sending_all(session, delivered);
            let number = session.send_counter + delivered_count(delivered);
            let envelope = envelope_bytes(after.send_counter, nonce, ciphertext);
            &&& number <= u64::MAX ==> after == Session { send_counter: number as u64, ..session }
            &&& number > u64::MAX ==> after == Session { send_counter: u64::MAX, ..session }
            &&& envelope[0] == ENVELOPE_VERSION
            &&& envelope.subrange(1, 9) == be_bytes(after.send_counter as nat, 8)
        }),
    decreases delivered.len(),
{
    let after = sending_all(session, delivered);
    let envelope = envelope_bytes(after.send_counter, nonce, ciphertext);
    lemma_be_bytes_len(after.send_counter as nat, 8);
    assert(envelope.subrange(1, 9) =~= be_bytes(after.send_counter as nat, 8));
    if delivered.len() > 0 {
        law_frames_are_numbered_as_delivered(session, delivered.drop_last(), nonce, ciphertext);
    }
}

/// A frame that was sealed: its plaintext, and what the cipher made of it.
pub struct Sealed {
    pub plaintext: Seq<u8>,
    pub nonce: Seq<u8>,
    pub ciphertext: Seq<u8>,
}

/// A cipher's answer to a nonce, a ciphertext and the bytes authenticated with it.
pub type Opening = spec_fn(Seq<u8>, Seq<u8>, Seq<u8>) -> Result<Seq<u8>, Seq<char>>;

/// What is authenticated with the `k`-th frame that `sender` seals from now on.
pub open spec fn aad_of_frame(sender: Session, k: int) -> Seq<u8> {
    frame_aad(direction_aad(sender.client), (sender.send_counter + k) as u64)
}

/// Whether a cipher opens only what was sealed: to a frame with the nonce, the
/// ciphertext and the authenticated bytes of a sealed one it answers with that one's
/// plaintext, and every other frame it rejects.
pub open spec fn opens_only_sealed(open: Opening, sender: Session, sealed: Seq<Sealed>) -> bool {
    forall|nonce: Seq<u8>, ciphertext: Seq<u8>, aad: Seq<u8>| #[trigger]
        open(nonce, ciphertext, aad) is Ok ==> exists|k: int|
            0 <= k < sealed.len() && aad == #[trigger] aad_of_frame(sender, k) && nonce
                == sealed[k].nonce && ciphertext == sealed[k].ciphertext && open(
                nonce,
                ciphertext,
                aad,
            ) == Ok::<Seq<u8>, Seq<char>>(sealed[k].plaintext)
}

/// What a cipher says of an envelope that reaches a session.
pub open spec fn said_of(open: Opening, session: Session, envelope: Seq<u8>) -> Result<
    Seq<u8>,
    Seq<char>,
> {
    open(
        envelope.subrange(9, 21),
        envelope.skip(ENVELOPE_HEADER_LEN as int),
        frame_aad(direction_aad(!session.client), session.expected_recv_counter),
    )
}

/// A session after some envelopes arrived, whatever they are and wherever they come
/// from, and the plaintexts that it took.
pub open spec fn receiving_all(session: Session, open: Opening, arrived: Seq<Seq<u8>>) -> (
    Session,
    Seq<Seq<u8>>,
)
    decreases arrived.len(),
{
    if arrived.len() == 0 {
        (session, Seq::empty())
    } else {
        let (before, taken) = receiving_all(session, open, arrived.drop_last());
        let (after, received) = receiving(
            before,
            arrived.last(),
            said_of(open, before, arrived.last()),
        );
        (
            after,
            match received {
                Received::Plain(plaintext) => taken.push(plaintext),
                _ => taken,
            },
        )
    }
}

/// The plaintexts of sealed frames.
pub open spec fn plaintexts(sealed: Seq<Sealed>) -> Seq<Seq<u8>> {
    sealed.map_values(|s: Sealed| s.plaintext)
}

/// The one envelope that a receiver takes next is the one that its peer sealed next:
/// where the cipher opens only what was sealed, an envelope that is taken is that one,
/// byte for byte, and gives its plaintext.
pub proof fn law_only_the_sealed_envelope_is_taken(
    sender: Session,
    sealed: Seq<Sealed>,
    receiver: Session,
    open: Opening,
    taken: nat,
    envelope: Seq<u8>,
)
    requires
        receiver.client != sender.client,
        receiver.expected_recv_counter == sender.send_counter + taken,
        sender.send_counter + sealed.len() <= u64::MAX,
        opens_only_sealed(open, sender, sealed),
    ensures
        receiving(receiver, envelope, said_of(open, receiver, envelope)).1 matches Received::Plain(
            plaintext,
        ) ==> taken < sealed.len() && plaintext == sealed[taken as int].plaintext && envelope
            == envelope_bytes(
            receiver.expected_recv_counter,
            sealed[taken as int].nonce,
            sealed[taken as int].ciphertext,
        ),
{
    let said = said_of(open, receiver, envelope);
    if receiving(receiver, envelope, said).1 is Plain {
        let nonce = envelope.subrange(9, 21);
        let ciphertext = envelope.skip(ENVELOPE_HEADER_LEN as int);
        let aad = frame_aad(direction_aad(!receiver.client), receiver.expected_recv_counter);
        assert(open(nonce, ciphertext, aad) is Ok);
        let k = choose|k: int|
            0 <= k < sealed.len() && aad == #[trigger] aad_of_frame(sender, k) && nonce
                == sealed[k].nonce && ciphertext == sealed[k].ciphertext && open(
                nonce,
                ciphertext,
                aad,
            ) == Ok::<Seq<u8>, Seq<char>>(sealed[k].plaintext);
        law_frame_aad_is_unique(
            !receiver.client,
            receiver.expected_recv_counter,
            sender.client,
            (sender.send_counter + k) as u64,
        );
        assert(k == taken);
        law_envelope_is_canonical(envelope);
    }
}

/// What a receiver takes is a prefix of what its peer sealed. Whatever arrives, in
/// whatever order and however often, the plaintexts that it takes are the first that
/// were sealed, in their order and each once, where the cipher opens only what was
/// sealed; and the receiver expects the one after them.
pub proof fn law_what_is_taken_is_a_prefix(
    sender: Session,
    sealed: Seq<Sealed>,
    receiver: Session,
    open: Opening,
    arrived: Seq<Seq<u8>>,
)
    requires
        mirrored(sender, receiver),
        sender.send_counter + sealed.len() <= u64::MAX,
        opens_only_sealed(open, sender, sealed),
    ensures
        ({
            let (after, taken) = receiving_all(receiver, open, arrived);
            &&& taken.len() <= sealed.len()
            &&& taken == plaintexts(sealed).take(taken.len() as int)
            &&& after == Session {
                expected_recv_counter: (sender.send_counter + taken.len()) as u64,
                ..receiver
            }
        }),
    decreases arrived.len(),
{
    if arrived.len() > 0 {
        law_what_is_taken_is_a_prefix(sender, sealed, receiver, open, arrived.drop_last());
        let (before, taken) = receiving_all(receiver, open, arrived.drop_last());
        law_only_the_sealed_envelope_is_taken(
            sender,
            sealed,
            before,
            open,
            taken.len(),
            arrived.last(),
        );
        let (after, all) = receiving_all(receiver, open, arrived);
        assert(all =~= plaintexts(sealed).take(all.len() as int));
    }
}

} // verus!
