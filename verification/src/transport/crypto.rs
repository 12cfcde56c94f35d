//! The cryptographic functions that the secure transport rests on.
//!
//! Each function here makes one call into a cryptographic crate. What the call
//! returns is named, not written out: nothing in this crate depends on how a
//! digest or a curve is computed, only on what is put in.

use base64::Engine;
use hmac::Mac;
use rand::RngCore;
use sha2::Digest;

use vstd::prelude::*;

verus! {

/// An error of the `base64` decoder.
#[verifier::external_type_specification]
#[verifier::external_body]
pub struct ExDecodeError(base64::DecodeError);

/// The error of `hmac` for a key of a length that it does not take.
#[verifier::external_type_specification]
#[verifier::external_body]
pub struct ExMacInvalidLength(hmac::digest::InvalidLength);

/// The error of `hkdf` for an output that is too long.
#[verifier::external_type_specification]
#[verifier::external_body]
pub struct ExHkdfInvalidLength(hkdf::InvalidLength);

/// The error of `rand` when there are no random bytes.
#[verifier::external_type_specification]
#[verifier::external_body]
pub struct ExRandError(rand::Error);

/// The SHA-256 digest of a message.
pub uninterp spec fn sha256_of(message: Seq<u8>) -> Seq<u8>;

/// The HMAC-SHA-256 tag of a message under a key.
pub uninterp spec fn hmac_sha256_of(key: Seq<u8>, message: Seq<u8>) -> Seq<u8>;

/// The first 32 bytes that HKDF-SHA-256 derives from a salt, key material and an
/// info string.
pub uninterp spec fn hkdf_sha256_of(salt: Seq<u8>, material: Seq<u8>, info: Seq<u8>) -> Seq<u8>;

/// The X25519 public key of a secret.
pub uninterp spec fn x25519_public_of(secret: Seq<u8>) -> Seq<u8>;

/// The X25519 shared secret of a secret and a public key.
pub uninterp spec fn x25519_shared_of(secret: Seq<u8>, public: Seq<u8>) -> Seq<u8>;

/// URL-safe base64 without padding.
pub uninterp spec fn base64_text(bytes: Seq<u8>) -> Seq<char>;

/// What URL-safe base64 without padding decodes to, if it decodes.
pub uninterp spec fn base64_bytes(text: Seq<char>) -> Option<Seq<u8>>;

/// `sha2::Sha256::digest` is a function of the message and gives 32 bytes.
#[verifier::external_body]
pub(crate) fn sha256(message: &[u8]) -> (digest: Vec<u8>)
    ensures
        digest@ == sha256_of(message@),
        digest@.len() == 32,
{
    sha2::Sha256::digest(message).to_vec()
}

/// `hmac::Hmac<Sha256>` accepts a key of any length, and its tag is a function of
/// the key and the message, 32 bytes long.
#[verifier::external_body]
pub(crate) fn hmac_sha256(key: &[u8], message: &[u8]) -> (tag: Result<
    Vec<u8>,
    hmac::digest::InvalidLength,
>)
    ensures
        tag is Ok,
        tag->Ok_0@ == hmac_sha256_of(key@, message@),
        tag->Ok_0@.len() == 32,
{
    let mut mac = <hmac::Hmac<sha2::Sha256> as Mac>::new_from_slice(key)?;
    mac.update(message);
    Ok(mac.finalize().into_bytes().to_vec())
}

/// `hkdf::Hkdf<Sha256>` can expand to 32 bytes, which are a function of the salt,
/// the key material and the info string.
#[verifier::external_body]
pub(crate) fn hkdf_sha256(salt: &[u8], material: &[u8], info: &[u8]) -> (key: Result<
    Vec<u8>,
    hkdf::InvalidLength,
>)
    ensures
        key is Ok,
        key->Ok_0@ == hkdf_sha256_of(salt@, material@, info@),
        key->Ok_0@.len() == 32,
{
    let mut key = [0u8; 32];
    hkdf::Hkdf::<sha2::Sha256>::new(Some(salt), material).expand(info, &mut key)?;
    Ok(key.to_vec())
}

/// `rand::rngs::OsRng::try_fill_bytes` fills the 32 bytes it is given, or says that
/// the operating system has no random bytes to give. Nothing is claimed of their
/// values.
#[verifier::external_body]
pub(crate) fn random_bytes() -> (bytes: Result<Vec<u8>, rand::Error>)
    ensures
        bytes matches Ok(b) ==> b@.len() == 32,
{
    let mut bytes = [0u8; 32];
    rand::rngs::OsRng.try_fill_bytes(&mut bytes)?;
    Ok(bytes.to_vec())
}

/// `x25519_dalek::PublicKey::from` of a secret is a function of the secret, 32
/// bytes long.
#[verifier::external_body]
pub(crate) fn x25519_public(secret: &[u8]) -> (public: Vec<u8>)
    requires
        secret@.len() == 32,
    ensures
        public@ == x25519_public_of(secret@),
        public@.len() == 32,
{
    let secret = x25519_dalek::StaticSecret::from(<[u8; 32]>::try_from(secret).unwrap());
    x25519_dalek::PublicKey::from(&secret).to_bytes().to_vec()
}

/// `x25519_dalek::StaticSecret::diffie_hellman` is a function of the secret and
/// the public key, 32 bytes long, and it is an agreement: the holder of the other
/// secret computes the same from this one's public key.
#[verifier::external_body]
pub(crate) fn x25519_shared(secret: &[u8], public: &[u8]) -> (shared: Vec<u8>)
    requires
        secret@.len() == 32,
        public@.len() == 32,
    ensures
        shared@ == x25519_shared_of(secret@, public@),
        shared@.len() == 32,
        forall|other: Seq<u8>|
            other.len() == 32 && #[trigger] x25519_public_of(other) == public@ ==> shared@
                == x25519_shared_of(other, x25519_public_of(secret@)),
{
    let secret = x25519_dalek::StaticSecret::from(<[u8; 32]>::try_from(secret).unwrap());
    let public = x25519_dalek::PublicKey::from(<[u8; 32]>::try_from(public).unwrap());
    secret.diffie_hellman(&public).to_bytes().to_vec()
}

/// `base64::Engine::encode` with the URL-safe alphabet and no padding is a
/// function of the bytes, and decoding undoes it.
#[verifier::external_body]
pub(crate) fn base64_encode(bytes: &[u8]) -> (text: String)
    requires
        bytes@.len() <= 0x4000_0000,
    ensures
        text@ == base64_text(bytes@),
        base64_bytes(text@) == Some(bytes@),
{
    base64::engine::general_purpose::URL_SAFE_NO_PAD.encode(bytes)
}

/// `base64::Engine::decode` with the URL-safe alphabet and no padding is a
/// function of the text.
#[verifier::external_body]
pub(crate) fn base64_decode(text: &str) -> (bytes: Result<Vec<u8>, base64::DecodeError>)
    ensures
        match bytes {
            Ok(b) => base64_bytes(text@) == Some(b@),
            Err(_) => base64_bytes(text@) is None,
        },
{
    base64::engine::general_purpose::URL_SAFE_NO_PAD.decode(text.as_bytes())
}

} // verus!
