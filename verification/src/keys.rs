//! Key derivation: one signing secret governs both the identity and the
//! confidentiality of its holder.

use vstd::prelude::*;
use crate::error::GxtError;
use crate::hexcode::{hex_encode, hex_text, parse_hex, parsed_hex};
use crate::primitives::{
    blake3_derive_key, blake3_derived_key, fresh_secret, x25519_agree, x25519_public,
    x25519_public_key, x25519_shared_secret,
};

verus! {

/// The context under which the encryption secret is derived from the signing
/// secret.
pub const ENCRYPTION_KEY_CONTEXT: &'static str = "GXT-ENC-X25519-FROM-ED25519";

/// The context under which the symmetric key is derived from the shared
/// secret of a key agreement.
pub const SYMMETRIC_KEY_CONTEXT: &'static str = "GXT-ENC-XCHACHA20POLY1305";

/// The encryption secret that belongs to the signing secret `secret`.
pub open spec fn encryption_secret(secret: Seq<u8>) -> Seq<u8> {
    blake3_derived_key(ENCRYPTION_KEY_CONTEXT@, secret)@
}

/// The public encryption key that belongs to the signing secret `secret`.
pub open spec fn encryption_key(secret: Seq<u8>) -> Seq<u8> {
    x25519_public_key(encryption_secret(secret))@
}

/// The symmetric key between the holder of the encryption secret `mine` and
/// the holder of the public encryption key `theirs`.
pub open spec fn symmetric_key(mine: Seq<u8>, theirs: Seq<u8>) -> Seq<u8> {
    blake3_derived_key(SYMMETRIC_KEY_CONTEXT@, x25519_shared_secret(mine, theirs)@)@
}

/// Creates a signing secret for a peer: 32 bytes from the operating system's
/// generator, written as lower-case hex.
pub fn make_key() -> (key: String)
    ensures
        exists|secret: Seq<u8>| secret.len() == 32 && key@ == #[trigger] hex_text(secret),
        parsed_hex(key@, 32) is Ok,
{
    let secret = fresh_secret();
    let key = hex_encode(secret.as_slice());
    proof {
        crate::hexcode::lemma_parse_written(secret@);
        assert(secret@.len() == 32 && key@ == hex_text(secret@));
    }
    key
}

/// Reads a signing secret from hex.
pub fn parse_key(text: &str) -> (parsed: Result<[u8; 32], GxtError>)
    ensures
        match parsed {
            Ok(secret) => parsed_hex(text@, 32) == Ok::<Seq<u8>, GxtError>(secret@),
            Err(e) => parsed_hex(text@, 32) == Err::<Seq<u8>, GxtError>(e),
        },
{
    parse_hex::<32>(text)
}

/// Derives the encryption key pair of a signing secret: the secret half, then
/// the public half. The same secret always gives the same pair.
pub fn derive_enc_from_signing(secret: &[u8; 32]) -> (pair: ([u8; 32], [u8; 32]))
    ensures
        pair.0@ == encryption_secret(secret@),
        pair.1@ == encryption_key(secret@),
{
    let derived = blake3_derive_key(ENCRYPTION_KEY_CONTEXT, secret.as_slice());
    let public = x25519_public(&derived);
    (derived, public)
}

/// Derives the symmetric key that two parties share, from one's encryption
/// secret and the other's public encryption key.
pub fn enc_derive_key_from_pairs(my_secret_key: &[u8; 32], their_encryption_key: &[u8; 32]) -> (key:
    [u8; 32])
    ensures
        key@ == symmetric_key(my_secret_key@, their_encryption_key@),
{
    let shared = x25519_agree(my_secret_key, their_encryption_key);
    blake3_derive_key(SYMMETRIC_KEY_CONTEXT, shared.as_slice())
}

} // verus!
