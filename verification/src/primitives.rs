//! The cryptographic primitives that the token format is built on. Each is
//! computed by an outside crate and known here by a name for its result.

use chacha20poly1305::aead::Aead;
use chacha20poly1305::aead::KeyInit;
use ed25519_dalek::Signer;
use rand::RngCore;
use vstd::prelude::*;

verus! {

/// The BLAKE3 hash of `data`, as `blake3::hash` computes it.
pub uninterp spec fn blake3_digest(data: Seq<u8>) -> [u8; 32];

/// The key that `blake3::derive_key` derives from `material` under `context`.
pub uninterp spec fn blake3_derived_key(context: Seq<char>, material: Seq<u8>) -> [u8; 32];

/// The Ed25519 public key of the secret `secret`, as `ed25519_dalek` derives
/// it.
pub uninterp spec fn ed25519_public_key(secret: Seq<u8>) -> [u8; 32];

/// The Ed25519 signature that `ed25519_dalek` gives `message` under `secret`.
pub uninterp spec fn ed25519_signature(secret: Seq<u8>, message: Seq<u8>) -> [u8; 64];

/// Whether `ed25519_dalek` takes `public` for the encoding of a public key.
pub uninterp spec fn ed25519_key_accepted(public: Seq<u8>) -> bool;

/// Whether `ed25519_dalek` takes `public` for a public key and its strict
/// verification accepts `signature` for `message` under that key.
pub uninterp spec fn ed25519_strictly_valid(
    public: Seq<u8>,
    message: Seq<u8>,
    signature: Seq<u8>,
) -> bool;

/// The X25519 public key of the secret `secret`, as `x25519_dalek` derives it.
pub uninterp spec fn x25519_public_key(secret: Seq<u8>) -> [u8; 32];

/// What the X25519 key agreement of `x25519_dalek` gives for the secret
/// `secret` and the other party's public key `public`.
pub uninterp spec fn x25519_shared_secret(secret: Seq<u8>, public: Seq<u8>) -> [u8; 32];

/// The ciphertext with its tag that XChaCha20-Poly1305 of `chacha20poly1305`
/// gives `plaintext` under `key` and `nonce`, or `None` where it refuses.
pub uninterp spec fn xchacha20poly1305_sealed(
    key: Seq<u8>,
    nonce: Seq<u8>,
    plaintext: Seq<u8>,
) -> Option<Seq<u8>>;

/// The plaintext that XChaCha20-Poly1305 of `chacha20poly1305` gives back for
/// `sealed` under `key` and `nonce`, or `None` where the tag does not hold.
pub uninterp spec fn xchacha20poly1305_opened(
    key: Seq<u8>,
    nonce: Seq<u8>,
    sealed: Seq<u8>,
) -> Option<Seq<u8>>;

/// Calls `blake3::hash`. Taken on trust: the digest goes by the data alone.
#[verifier::external_body]
pub(crate) fn blake3_hash(data: &[u8]) -> (digest: [u8; 32])
    ensures
        digest == blake3_digest(data@),
{
    *blake3::hash(data).as_bytes()
}

/// Calls `blake3::derive_key`. Taken on trust: the key goes by the context
/// and the key material alone.
#[verifier::external_body]
pub(crate) fn blake3_derive_key(context: &str, material: &[u8]) -> (key: [u8; 32])
    ensures
        key == blake3_derived_key(context@, material@),
{
    blake3::derive_key(context, material)
}

/// Calls `SigningKey::verifying_key` of `ed25519_dalek` on the signing key
/// with the bytes `secret`. Taken on trust: the public key goes by the secret
/// alone.
#[verifier::external_body]
pub(crate) fn ed25519_public(secret: &[u8; 32]) -> (public: [u8; 32])
    ensures
        public == ed25519_public_key(secret@),
{
    ed25519_dalek::SigningKey::from_bytes(secret).verifying_key().to_bytes()
}

/// Calls `Signer::sign` of `ed25519_dalek` on the signing key with the bytes
/// `secret`. Taken on trust: the signature goes by the secret and the message
/// alone; no randomness enters it.
#[verifier::external_body]
pub(crate) fn ed25519_sign(secret: &[u8; 32], message: &[u8]) -> (signature: [u8; 64])
    ensures
        signature == ed25519_signature(secret@, message@),
{
    ed25519_dalek::SigningKey::from_bytes(secret).sign(message).to_bytes()
}

/// Calls `VerifyingKey::from_bytes` of `ed25519_dalek` and says whether it
/// took the bytes. Taken on trust: the answer goes by the bytes alone.
#[verifier::external_body]
pub(crate) fn ed25519_accepts_key(public: &[u8; 32]) -> (accepted: bool)
    ensures
        accepted == ed25519_key_accepted(public@),
{
    ed25519_dalek::VerifyingKey::from_bytes(public).is_ok()
}

/// Calls `VerifyingKey::verify_strict` of `ed25519_dalek` on the key with the
/// bytes `public`, and says whether it accepted; bytes that are no key are
/// not accepted. Taken on trust: the answer goes by the key, the message and
/// the signature alone.
#[verifier::external_body]
pub(crate) fn ed25519_verify_strict(public: &[u8; 32], message: &[u8], signature: &[u8; 64]) -> (valid:
    bool)
    ensures
        valid == ed25519_strictly_valid(public@, message@, signature@),
{
    match ed25519_dalek::VerifyingKey::from_bytes(public) {
        Ok(key) => key.verify_strict(message, &ed25519_dalek::Signature::from_bytes(signature)).is_ok(),
        Err(_) => false,
    }
}

/// Makes an `x25519_dalek::PublicKey` from the static secret with the bytes
/// `secret`. Taken on trust: the public key goes by the secret alone.
#[verifier::external_body]
pub(crate) fn x25519_public(secret: &[u8; 32]) -> (public: [u8; 32])
    ensures
        public == x25519_public_key(secret@),
{
    x25519_dalek::PublicKey::from(&x25519_dalek::StaticSecret::from(*secret)).to_bytes()
}

/// Calls `StaticSecret::diffie_hellman` of `x25519_dalek`. Taken on trust:
/// the shared secret goes by the secret and the public key alone.
#[verifier::external_body]
pub(crate) fn x25519_agree(secret: &[u8; 32], public: &[u8; 32]) -> (shared: [u8; 32])
    ensures
        shared == x25519_shared_secret(secret@, public@),
{
    let theirs = x25519_dalek::PublicKey::from(*public);
    x25519_dalek::StaticSecret::from(*secret).diffie_hellman(&theirs).to_bytes()
}

/// Calls `Aead::encrypt` of XChaCha20-Poly1305, with no associated data.
/// Taken on trust: whether it seals, and what it gives, goes by the key, the
/// nonce and the plaintext alone.
#[verifier::external_body]
pub(crate) fn xchacha20poly1305_seal(key: &[u8; 32], nonce: &[u8; 24], plaintext: &[u8]) -> (sealed:
    Option<Vec<u8>>)
    ensures
        match sealed {
            Some(s) => xchacha20poly1305_sealed(key@, nonce@, plaintext@) == Some(s@),
            None => xchacha20poly1305_sealed(key@, nonce@, plaintext@) is None,
        },
{
    let cipher = chacha20poly1305::XChaCha20Poly1305::new(chacha20poly1305::Key::from_slice(key));
    cipher.encrypt(chacha20poly1305::XNonce::from_slice(nonce), plaintext).ok()
}

/// Calls `Aead::decrypt` of XChaCha20-Poly1305, with no associated data.
/// Taken on trust: whether it opens, and what it gives, goes by the key, the
/// nonce and the sealed bytes alone.
#[verifier::external_body]
pub(crate) fn xchacha20poly1305_open(key: &[u8; 32], nonce: &[u8; 24], sealed: &[u8]) -> (plaintext:
    Option<Vec<u8>>)
    ensures
        match plaintext {
            Some(p) => xchacha20poly1305_opened(key@, nonce@, sealed@) == Some(p@),
            None => xchacha20poly1305_opened(key@, nonce@, sealed@) is None,
        },
{
    let cipher = chacha20poly1305::XChaCha20Poly1305::new(chacha20poly1305::Key::from_slice(key));
    cipher.decrypt(chacha20poly1305::XNonce::from_slice(nonce), sealed).ok()
}

/// Calls `RngCore::fill_bytes` on `rand::rngs::OsRng`, the operating
/// system's generator. Nothing is claimed of the bytes. The call does not
/// return where the operating system has no randomness to give.
#[verifier::external_body]
pub(crate) fn fresh_nonce() -> (nonce: [u8; 24]) {
    let mut nonce = [0u8; 24];
    rand::rngs::OsRng.fill_bytes(&mut nonce);
    nonce
}

/// Calls `SigningKey::generate` of `ed25519_dalek` on `rand::rngs::OsRng`,
/// the operating system's generator, and hands out the secret's bytes.
/// Nothing is claimed of them. The call does not return where the operating
/// system has no randomness to give.
#[verifier::external_body]
pub(crate) fn fresh_secret() -> (secret: [u8; 32]) {
    ed25519_dalek::SigningKey::generate(&mut rand::rngs::OsRng).to_bytes()
}

} // verus!
