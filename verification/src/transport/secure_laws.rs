//! What the ends of a secure connection take from each other, byte by byte.

use vstd::prelude::*;
use vstd::string::*;

use crate::lines::{lemma_named_with_tail, lemma_two, says, stands_at};
use crate::text::{ascii_uppercase, decimal, trimmed};
use crate::transport::crypto::{hkdf_sha256_of, hmac_sha256_of, sha256_of};
use crate::transport::envelope::{
    counter_of, direction_aad, envelope_bytes, envelope_fault, frame_aad, frame_failure,
};
use crate::transport::error::{IoErrorKind, TransportError};
use crate::transport::secure::{
    agreed_secret, authentication_message, counter_message, exhausted_message, handshake_failure,
    hello_bytes, hello_fault, mirrored, proof_fault, proof_of, receiving, response_fault, sending, session_of,
    transcript_of, Received, Session,
};
use crate::wire::{be_bytes, be_value};

verus! {

/// A server takes exactly the hellos of this protocol and version, and where it wants a
/// pairing secret only those of a client that holds one.
pub proof fn law_server_takes_hellos_of_its_protocol(hello: Seq<u8>, wants_secret: bool)
    ensures
        hello_fault(hello, wants_secret) is None <==> {
            &&& hello.len() == 74
            &&& hello.take(8) == "PLNSEC01".spec_bytes()
            &&& hello[8] == 2
            &&& wants_secret ==> hello[73] == 1
        },
        hello_fault(hello, wants_secret) matches Some(message) ==> message == if hello.len() == 74
            && hello.take(8) == "PLNSEC01".spec_bytes() && hello[8] == 2 {
            "pairing PIN required"@
        } else {
            "incompatible or malformed secure LAN peer"@
        },
{
}

/// A client takes exactly the answers of this protocol and version whose proof is right: it
/// is the server's, over both hellos, and rests on the pairing secret where the server
/// wants one. A client without a secret refuses such a server.
pub proof fn law_client_takes_proven_answers(
    hello: Seq<u8>,
    pairing: Option<Seq<char>>,
    response: Seq<u8>,
)
    ensures
        response_fault(hello, pairing, response) is None <==> {
            &&& response.len() == 106
            &&& response.take(8) == "PLNSEC01".spec_bytes()
            &&& response[8] == 2
            &&& response[73] == 1 ==> pairing is Some
            &&& response.skip(74) == proof_of(
                if response[73] == 1 {
                    pairing
                } else {
                    None
                },
                "server".spec_bytes(),
                sha256_of(
                    "plenum-secure-lan-transcript-v2".spec_bytes() + hello + response.take(74),
                ),
            )
        },
        agreed_secret(pairing, response) == if response[73] == 1 {
            pairing
        } else {
            None
        },
        response_fault(hello, pairing, response) matches Some(message) ==> message
            == if response.len() != 106 || response.take(8) != "PLNSEC01".spec_bytes()
            || response[8] != 2 {
            "incompatible or malformed secure LAN peer"@
        } else if response[73] == 1 && pairing is None {
            "receiver requires a pairing PIN"@
        } else {
            "pairing authentication failed"@
        },
{
}

/// A server takes exactly the client's proof over the transcript, which rests on its own
/// pairing secret.
pub proof fn law_server_takes_the_right_proof(
    transcript: Seq<u8>,
    pairing: Option<Seq<char>>,
    proof: Seq<u8>,
)
    ensures
        proof_fault(transcript, pairing, proof) is None <==> proof.len() == 32 && proof == proof_of(
            pairing,
            "client".spec_bytes(),
            transcript,
        ),
        proof_fault(transcript, pairing, proof) matches Some(message) ==> message == if proof.len()
            == 32 {
            "pairing authentication failed"@
        } else {
            "malformed client handshake proof"@
        },
{
}

/// A proof without a secret is all zero. One with a secret is a keyed digest of the role
/// and the transcript, under the secret without the white space around it and in upper
/// case: so it tells the two roles and every two transcripts apart as the digest does.
pub proof fn law_proofs_are_keyed_digests(
    secret: Seq<char>,
    role: Seq<u8>,
    transcript: Seq<u8>,
    i: int,
)
    requires
        0 <= i < 32,
    ensures
        proof_of(None, role, transcript).len() == 32,
        proof_of(None, role, transcript)[i] == 0,
        proof_of(Some(secret), role, transcript) == hmac_sha256_of(
            vstd::utf8::encode_utf8(ascii_uppercase(trimmed(secret))),
            "plenum-secure-lan-proof-v2".spec_bytes() + role + transcript,
        ),
{
}

/// What both ends prove to have seen covers both hellos, the client's first.
pub proof fn law_transcript_covers_both_hellos(client: Seq<u8>, server: Seq<u8>)
    ensures
        transcript_of(client, server) == sha256_of(
            "plenum-secure-lan-transcript-v2".spec_bytes() + client + server,
        ),
{
}

/// A hello is the name and the version of the protocol, the public key, the nonce, and
/// whether there is a pairing secret.
pub proof fn law_hello_holds_key_and_nonce(public: Seq<u8>, nonce: Seq<u8>, pin: bool)
    requires
        public.len() == 32,
        nonce.len() == 32,
    ensures
        ({
            let hello = hello_bytes(public, nonce, pin);
            &&& hello.len() == 74
            &&& hello.take(8) == "PLNSEC01".spec_bytes()
            &&& hello[8] == 2
            &&& hello.subrange(9, 41) == public
            &&& hello.subrange(41, 73) == nonce
            &&& hello[73] == if pin {
                1u8
            } else {
                0u8
            }
        }),
{
    crate::transport::secure::lemma_hello_layout(public, nonce, pin);
    assert(hello_bytes(public, nonce, pin).subrange(41, 73) =~= nonce);
}

/// Each direction has a key of its own, drawn from the shared secret and the transcript:
/// what a client sends with is what a server receives with. A session starts with no frame
/// sent and none received.
pub proof fn law_each_direction_has_its_key(shared: Seq<u8>, transcript: Seq<u8>)
    ensures
        ({
            let client = session_of(shared, transcript, true);
            let server = session_of(shared, transcript, false);
            let up = hkdf_sha256_of(
                transcript,
                shared,
                "plenum-lan-v2:client-to-server".spec_bytes(),
            );
            let down = hkdf_sha256_of(
                transcript,
                shared,
                "plenum-lan-v2:server-to-client".spec_bytes(),
            );
            &&& client.send_key == up && client.recv_key == down
            &&& server.send_key == down && server.recv_key == up
            &&& client.client && !server.client
            &&& client.send_counter == 0 && client.expected_recv_counter == 0
            &&& server.send_counter == 0 && server.expected_recv_counter == 0
            &&& mirrored(client, server)
        }),
{
}

/// An envelope is the version, the counter, the nonce and the ciphertext, and what is
/// authenticated with it is its direction, the version and the counter.
pub proof fn law_envelope_layout(
    from_client: bool,
    counter: u64,
    nonce: Seq<u8>,
    ciphertext: Seq<u8>,
)
    ensures
        envelope_bytes(counter, nonce, ciphertext) == seq![2u8] + be_bytes(counter as nat, 8)
            + nonce + ciphertext,
        frame_aad(direction_aad(from_client), counter) == (if from_client {
            "plenum-lan-v2:client-to-server".spec_bytes()
        } else {
            "plenum-lan-v2:server-to-client".spec_bytes()
        }) + seq![2u8] + be_bytes(counter as nat, 8),
{
}

/// Whether bytes are an envelope of this version that is long enough for its tag.
pub open spec fn is_envelope(bytes: Seq<u8>) -> bool {
    bytes.len() >= 37 && bytes[0] == 2
}

/// A session takes exactly the envelope that is due and authentic: its counter is the
/// number of envelopes taken before, and the cipher opens it. What it gives is what the
/// cipher gives, and the next counter is then due. Every other envelope is refused and
/// changes nothing, and so is one after which no counter is left.
pub proof fn law_session_takes_what_is_due(
    session: Session,
    envelope: Seq<u8>,
    decrypted: Result<Seq<u8>, Seq<char>>,
)
    ensures
        ({
            let (after, received) = receiving(session, envelope, decrypted);
            let due = is_envelope(envelope) && be_value(envelope.subrange(1, 9))
                == session.expected_recv_counter;
            &&& received is Plain <==> due && decrypted is Ok && session.expected_recv_counter
                < u64::MAX
            &&& received matches Received::Plain(bytes) ==> Ok::<Seq<u8>, Seq<char>>(bytes)
                == decrypted && after == (Session {
                expected_recv_counter: (session.expected_recv_counter + 1) as u64,
                ..session
            })
            &&& received !is Plain ==> after == session
            &&& received is Exhausted <==> due && decrypted is Ok && session.expected_recv_counter
                == u64::MAX
            &&& received is Refused <==> !due || decrypted is Err
        }),
{
}

/// Bytes are an envelope exactly if they are of this version and long enough, and the
/// counter is the number in the eight bytes behind the version.
pub proof fn law_envelopes_are_recognised(bytes: Seq<u8>)
    ensures
        envelope_fault(bytes) is None <==> is_envelope(bytes),
        counter_of(bytes) == be_value(bytes.subrange(1, 9)),
        envelope_fault(bytes) matches Some(message) ==> if bytes.len() < 37 {
            says(message, "truncated encrypted frame: envelope_len="@, bytes.len())
        } else {
            says(
                message,
                "unsupported encrypted envelope version: expected=2 received="@,
                bytes[0] as nat,
            ) && says(message, " envelope_len="@, bytes.len())
        },
{
    if bytes.len() < 37 {
        let message = envelope_fault(bytes)->Some_0;
        let part = "truncated encrypted frame: envelope_len="@ + decimal(bytes.len());
        assert(message.subrange(0, part.len() as int) =~= part);
        assert(stands_at(message, part, 0));
    } else if bytes[0] != 2 {
        lemma_two(
            (
                "unsupported encrypted envelope version: expected=2 received="@,
                bytes[0] as nat,
            ),
            (" envelope_len="@, bytes.len()),
        );
    }
}

/// Every failure of a handshake, and every one of a frame, is one of the data that came,
/// and says during what.
pub proof fn law_secure_failures_are_of_the_data(message: Seq<char>)
    ensures
        handshake_failure(message) == (TransportError::Io {
            operation: "secure handshake",
            kind: IoErrorKind::InvalidData,
            message,
        }),
        frame_failure(message) == (TransportError::Io {
            operation: "secure frame",
            kind: IoErrorKind::InvalidData,
            message,
        }),
{
}

/// A counter is used up by a frame that was delivered, and by no other. The last one is
/// never used up.
pub proof fn law_delivery_uses_a_counter_up(session: Session, delivered: bool)
    ensures
        ({
            let after = sending(session, delivered);
            &&& delivered && session.send_counter < u64::MAX ==> after == (Session {
                send_counter: (session.send_counter + 1) as u64,
                ..session
            })
            &&& !delivered || session.send_counter == u64::MAX ==> after == session
        }),
{
}

/// What is said of a frame that is refused names its direction and its numbers.
pub proof fn law_refusals_name_their_numbers(
    from_client: bool,
    counter: u64,
    received: nat,
    envelope_len: nat,
    reason: Seq<char>,
)
    requires
        envelope_len >= 37,
    ensures
        ({
            let direction = if from_client {
                "client-to-server"@
            } else {
                "server-to-client"@
            };
            let unexpected = counter_message(from_client, counter, received, envelope_len);
            let broken = authentication_message(from_client, counter, envelope_len, reason);
            let exhausted = exhausted_message(from_client, counter);
            &&& stands_at(
                unexpected,
                "unexpected encrypted frame counter: direction="@ + direction,
                0,
            )
            &&& says(unexpected, " expected_counter="@, counter as nat)
            &&& says(unexpected, " received_counter="@, received)
            &&& says(unexpected, " envelope_len="@, envelope_len)
            &&& stands_at(
                broken,
                "failed to authenticate encrypted frame: direction="@ + direction,
                0,
            )
            &&& says(broken, " counter="@, counter as nat)
            &&& says(broken, " expected_counter="@, counter as nat)
            &&& says(broken, " envelope_len="@, envelope_len)
            &&& stands_at(exhausted, "secure frame counter exhausted: direction="@ + direction, 0)
            &&& says(exhausted, " counter="@, counter as nat)
        }),
{
    let direction = if from_client {
        "client-to-server"@
    } else {
        "server-to-client"@
    };
    let rest = " ciphertext_len="@ + decimal((envelope_len - 21) as nat);
    let why = rest + " error="@ + reason;
    lemma_named_with_tail(
        "unexpected encrypted frame counter: direction="@ + direction,
        (" expected_counter="@, counter as nat),
        (" received_counter="@, received),
        (" envelope_len="@, envelope_len),
        rest,
    );
    lemma_named_with_tail(
        "failed to authenticate encrypted frame: direction="@ + direction,
        (" counter="@, counter as nat),
        (" expected_counter="@, counter as nat),
        (" envelope_len="@, envelope_len),
        why,
    );
    let unexpected = counter_message(from_client, counter, received, envelope_len);
    assert(unexpected =~= "unexpected encrypted frame counter: direction="@ + direction
        + " expected_counter="@ + decimal(counter as nat) + " received_counter="@ + decimal(
        received,
    ) + " envelope_len="@ + decimal(envelope_len) + rest);
    let broken = authentication_message(from_client, counter, envelope_len, reason);
    assert(broken =~= "failed to authenticate encrypted frame: direction="@ + direction
        + " counter="@ + decimal(counter as nat) + " expected_counter="@ + decimal(counter as nat)
        + " envelope_len="@ + decimal(envelope_len) + why);
    let exhausted = exhausted_message(from_client, counter);
    let head = "secure frame counter exhausted: direction="@ + direction;
    let last = " counter="@ + decimal(counter as nat);
    assert(exhausted =~= head + last);
    assert(exhausted.subrange(0, head.len() as int) =~= head);
    let i = head.len() as int;
    assert(exhausted.subrange(i, i + last.len()) =~= last);
    assert(stands_at(exhausted, last, i));
}

} // verus!
