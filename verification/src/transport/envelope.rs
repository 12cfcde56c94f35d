//! The envelope of an encrypted frame.
//!
//! An envelope is a version byte, a big-endian counter of eight bytes, a nonce of
//! twelve, and the ciphertext with its tag.

use vstd::prelude::*;
use vstd::string::*;

use crate::text::{decimal, push_decimal};
use crate::transport::crypto::{base64_bytes, base64_decode, base64_encode, base64_text};
use crate::transport::error::{IoErrorKind, TransportError};
use crate::wire::{
    be_bytes, be_value, copy_range, lemma_be_bytes_len, lemma_be_bytes_of_value, lemma_be_limits,
    lemma_be_round_trip, lemma_be_value_bound, push_all, push_be, read_be,
};

verus! {

/// The version of the envelope.
pub const ENVELOPE_VERSION: u8 = 2;

/// Length of the nonce of an encrypted frame.
pub const NONCE_LEN: usize = 12;

/// Length of what an envelope holds before the ciphertext.
pub const ENVELOPE_HEADER_LEN: usize = 21;

/// Length of the shortest envelope: a header and an authentication tag.
pub const MIN_ENVELOPE_LEN: usize = 37;

pub const AAD_CLIENT_TO_SERVER: &'static str = "plenum-lan-v2:client-to-server";

pub const AAD_SERVER_TO_CLIENT: &'static str = "plenum-lan-v2:server-to-client";

/// The error of an encrypted frame.
pub open spec fn frame_failure(message: Seq<char>) -> TransportError<Seq<char>> {
    TransportError::Io { operation: "secure frame", kind: IoErrorKind::InvalidData, message }
}

/// The error of an encrypted frame.
pub fn secure_frame_error(message: &str) -> (error: TransportError)
    ensures
        error@ == frame_failure(message@),
{
    TransportError::Io {
        operation: "secure frame",
        kind: IoErrorKind::InvalidData,
        message: message.to_string(),
    }
}

/// What a cipher makes of a plaintext: a nonce as URL-safe base64 without padding,
/// and the ciphertext with its tag.
pub struct EncryptedFrame<S = String, B = Vec<u8>> {
    pub nonce: S,
    pub ciphertext: B,
}

impl View for EncryptedFrame {
    type V = EncryptedFrame<Seq<char>, Seq<u8>>;

    open spec fn view(&self) -> EncryptedFrame<Seq<char>, Seq<u8>> {
        EncryptedFrame { nonce: self.nonce@, ciphertext: self.ciphertext@ }
    }
}

/// What an envelope holds.
pub struct DecodedEnvelope {
    pub counter: u64,
    pub frame: EncryptedFrame,
}

/// What is authenticated with a frame: its direction, the version of the envelope
/// and its counter.
pub open spec fn frame_aad(direction: Seq<u8>, counter: u64) -> Seq<u8> {
    direction + seq![ENVELOPE_VERSION] + be_bytes(counter as nat, 8)
}

/// What authenticates the direction of a frame.
pub open spec fn direction_aad(from_client: bool) -> Seq<u8> {
    if from_client {
        AAD_CLIENT_TO_SERVER.spec_bytes()
    } else {
        AAD_SERVER_TO_CLIENT.spec_bytes()
    }
}

/// The envelope of a counter, a nonce and a ciphertext.
pub open spec fn envelope_bytes(counter: u64, nonce: Seq<u8>, ciphertext: Seq<u8>) -> Seq<u8> {
    seq![ENVELOPE_VERSION] + be_bytes(counter as nat, 8) + nonce + ciphertext
}

/// The counter of an envelope.
pub open spec fn counter_of(envelope: Seq<u8>) -> nat {
    be_value(envelope.subrange(1, 9))
}

/// Why bytes are no envelope, if they are none.
pub open spec fn envelope_fault(bytes: Seq<u8>) -> Option<Seq<char>> {
    if bytes.len() < MIN_ENVELOPE_LEN {
        Some(
            "truncated encrypted frame: envelope_len="@ + decimal(bytes.len()) + " minimum_len=37"@,
        )
    } else if bytes[0] != ENVELOPE_VERSION {
        Some(
            "unsupported encrypted envelope version: expected=2 received="@ + decimal(
                bytes[0] as nat,
            ) + " envelope_len="@ + decimal(bytes.len()),
        )
    } else {
        None
    }
}

/// Builds what is authenticated with a frame.
pub fn build_frame_aad(direction: &[u8], counter: u64) -> (aad: Vec<u8>)
    ensures
        aad@ == frame_aad(direction@, counter),
{
    let mut aad: Vec<u8> = Vec::new();
    push_all(&mut aad, direction);
    aad.push(ENVELOPE_VERSION);
    proof {
        lemma_be_limits();
    }
    push_be(&mut aad, counter, 8);
    assert(aad@ =~= frame_aad(direction@, counter));
    aad
}

/// Puts a frame into an envelope. The nonce must be base64 of twelve bytes.
pub fn encode_envelope(counter: u64, frame: &EncryptedFrame) -> (r: Result<Vec<u8>, TransportError>)
    ensures
        match r {
            Ok(bytes) => base64_bytes(frame.nonce@) is Some && base64_bytes(
                frame.nonce@,
            )->Some_0.len() == NONCE_LEN && bytes@ == envelope_bytes(
                counter,
                base64_bytes(frame.nonce@)->Some_0,
                frame.ciphertext@,
            ),
            Err(error) => !(base64_bytes(frame.nonce@) is Some && base64_bytes(
                frame.nonce@,
            )->Some_0.len() == NONCE_LEN) && error@ == frame_failure(
                "invalid encrypted-frame nonce"@,
            ),
        },
{
    let nonce: Vec<u8> = match base64_decode(frame.nonce.as_str()) {
        Ok(nonce) => nonce,
        Err(_) => return Err(secure_frame_error("invalid encrypted-frame nonce")),
    };
    if nonce.len() != NONCE_LEN {
        return Err(secure_frame_error("invalid encrypted-frame nonce"));
    }
    let mut bytes: Vec<u8> = Vec::new();
    bytes.push(ENVELOPE_VERSION);
    proof {
        lemma_be_limits();
    }
    push_be(&mut bytes, counter, 8);
    push_all(&mut bytes, nonce.as_slice());
    push_all(&mut bytes, frame.ciphertext.as_slice());
    assert(bytes@ =~= envelope_bytes(counter, nonce@, frame.ciphertext@));
    Ok(bytes)
}

/// Whether bytes are an envelope, and its counter.
pub fn check_envelope(bytes: &[u8]) -> (r: Result<u64, TransportError>)
    ensures
        match r {
            Ok(counter) => envelope_fault(bytes@) is None && counter == counter_of(bytes@),
            Err(error) => envelope_fault(bytes@) is Some && error@ == frame_failure(
                envelope_fault(bytes@)->Some_0,
            ),
        },
{
    if bytes.len() < MIN_ENVELOPE_LEN {
        let mut m: String = "truncated encrypted frame: envelope_len=".to_string();
        push_decimal(&mut m, bytes.len() as u64);
        m.append(" minimum_len=37");
        return Err(secure_frame_error(m.as_str()));
    }
    if bytes[0] != ENVELOPE_VERSION {
        let mut m: String =
            "unsupported encrypted envelope version: expected=2 received=".to_string();
        push_decimal(&mut m, bytes[0] as u64);
        m.append(" envelope_len=");
        push_decimal(&mut m, bytes.len() as u64);
        return Err(secure_frame_error(m.as_str()));
    }
    proof {
        lemma_be_limits();
    }
    Ok(read_be(bytes, 1, 8))
}

/// Takes an envelope apart.
pub fn decode_envelope(bytes: &[u8]) -> (r: Result<DecodedEnvelope, TransportError>)
    ensures
        match r {
            Ok(envelope) => {
                &&& envelope_fault(bytes@) is None
                &&& envelope.counter == counter_of(bytes@)
                &&& envelope.frame.nonce@ == base64_text(bytes@.subrange(9, 21))
                &&& base64_bytes(envelope.frame.nonce@) == Some(bytes@.subrange(9, 21))
                &&& envelope.frame.ciphertext@ == bytes@.skip(ENVELOPE_HEADER_LEN as int)
            },
            Err(error) => {
                &&& envelope_fault(bytes@) is Some
                &&& error@ == frame_failure(envelope_fault(bytes@)->Some_0)
            },
        },
{
    let counter: u64 = match check_envelope(bytes) {
        Ok(counter) => counter,
        Err(error) => return Err(error),
    };
    let nonce: Vec<u8> = copy_range(bytes, 9, ENVELOPE_HEADER_LEN);
    let ciphertext: Vec<u8> = copy_range(bytes, ENVELOPE_HEADER_LEN, bytes.len());
    assert(ciphertext@ =~= bytes@.skip(ENVELOPE_HEADER_LEN as int));
    Ok(
        DecodedEnvelope {
            counter,
            frame: EncryptedFrame { nonce: base64_encode(nonce.as_slice()), ciphertext },
        },
    )
}

/// What goes into an envelope comes out of it: an envelope of a nonce of twelve
/// bytes and a ciphertext that holds at least its tag is well formed, and its
/// counter, nonce and ciphertext are those that it was made of.
pub proof fn law_envelope_round_trip(counter: u64, nonce: Seq<u8>, ciphertext: Seq<u8>)
    requires
        nonce.len() == NONCE_LEN,
        ciphertext.len() >= 16,
    ensures
        envelope_fault(envelope_bytes(counter, nonce, ciphertext)) is None,
        counter_of(envelope_bytes(counter, nonce, ciphertext)) == counter,
        envelope_bytes(counter, nonce, ciphertext).subrange(9, 21) == nonce,
        envelope_bytes(counter, nonce, ciphertext).skip(ENVELOPE_HEADER_LEN as int) == ciphertext,
{
    let bytes = envelope_bytes(counter, nonce, ciphertext);
    lemma_be_bytes_len(counter as nat, 8);
    lemma_be_limits();
    lemma_be_round_trip(counter as nat, 8);
    assert(bytes.subrange(1, 9) =~= be_bytes(counter as nat, 8));
    assert(bytes.subrange(9, 21) =~= nonce);
    assert(bytes.skip(ENVELOPE_HEADER_LEN as int) =~= ciphertext);
}

/// Nothing else decodes to the same: a well-formed envelope is the envelope of its
/// own counter, nonce and ciphertext.
pub proof fn law_envelope_is_canonical(bytes: Seq<u8>)
    requires
        envelope_fault(bytes) is None,
    ensures
        counter_of(bytes) <= u64::MAX,
        bytes == envelope_bytes(
            counter_of(bytes) as u64,
            bytes.subrange(9, 21),
            bytes.skip(ENVELOPE_HEADER_LEN as int),
        ),
{
    lemma_be_limits();
    lemma_be_value_bound(bytes.subrange(1, 9));
    lemma_be_bytes_of_value(bytes.subrange(1, 9));
    assert(bytes =~= envelope_bytes(
        counter_of(bytes) as u64,
        bytes.subrange(9, 21),
        bytes.skip(ENVELOPE_HEADER_LEN as int),
    ));
}

/// No two frames are authenticated alike: what is authenticated with a frame tells
/// its direction and its counter.
pub proof fn law_frame_aad_is_unique(a: bool, i: u64, b: bool, j: u64)
    requires
        frame_aad(direction_aad(a), i) == frame_aad(direction_aad(b), j),
    ensures
        a == b,
        i == j,
{
    lemma_directions();
    lemma_be_bytes_len(i as nat, 8);
    lemma_be_bytes_len(j as nat, 8);
    lemma_be_limits();
    lemma_be_round_trip(i as nat, 8);
    lemma_be_round_trip(j as nat, 8);
    let x = frame_aad(direction_aad(a), i);
    let y = frame_aad(direction_aad(b), j);
    assert(x.skip(31) =~= be_bytes(i as nat, 8));
    assert(y.skip(31) =~= be_bytes(j as nat, 8));
    assert(x[14] == direction_aad(a)[14]);
    assert(y[14] == direction_aad(b)[14]);
}

proof fn lemma_directions()
    ensures
        direction_aad(true).len() == 30,
        direction_aad(false).len() == 30,
        direction_aad(true)[14] != direction_aad(false)[14],
{
    reveal_strlit("plenum-lan-v2:client-to-server");
    reveal_strlit("plenum-lan-v2:server-to-client");
    assert(is_ascii(AAD_CLIENT_TO_SERVER));
    assert(is_ascii(AAD_SERVER_TO_CLIENT));
    is_ascii_spec_bytes(AAD_CLIENT_TO_SERVER);
    is_ascii_spec_bytes(AAD_SERVER_TO_CLIENT);
}

} // verus!
