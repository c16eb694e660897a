//! Signing and verifying: the content id of a record, its signature, and the
//! two checks that every token must pass, the id before the signature.

use vstd::prelude::*;
use crate::codec::{encode_message, encoded, text_outcome};
use crate::envelope::{
    canonical_bytes, get_canonical_representation, option_bytes, preimage, signing_preimage,
    PayloadKind,
};
use crate::error::GxtError;
use crate::keys::{derive_enc_from_signing, encryption_key};
use crate::payload::{Payload, Tree};
use crate::primitives::{
    blake3_digest, blake3_hash, ed25519_accepts_key, ed25519_key_accepted, ed25519_public,
    ed25519_public_key, ed25519_sign, ed25519_signature, ed25519_strictly_valid,
    ed25519_verify_strict,
};

verus! {

/// What verifying a record gives: the id must be the hash of the canonical
/// bytes, the verification key must be a key, and the signature must hold
/// for the tagged canonical bytes, in that order.
pub open spec fn verified(
    verification_key: Seq<u8>,
    canonical: Seq<u8>,
    signature: Seq<u8>,
    claimed_id: Seq<u8>,
) -> Result<(), GxtError> {
    if claimed_id != blake3_digest(canonical)@ {
        Err(GxtError::BadId)
    } else if !ed25519_key_accepted(verification_key) {
        Err(GxtError::Invalid)
    } else if !ed25519_strictly_valid(verification_key, signing_preimage(canonical), signature) {
        Err(GxtError::BadSig)
    } else {
        Ok(())
    }
}

/// The token that the holder of `secret` makes for a payload: the record is
/// encoded canonically, hashed for its id, signed, and written out with both
/// attached.
pub open spec fn made(
    secret: Seq<u8>,
    kind: PayloadKind,
    payload: Tree,
    parent: Option<Seq<u8>>,
) -> Result<Seq<char>, GxtError> {
    let verification_key = ed25519_public_key(secret)@;
    let encryption_key = encryption_key(secret);
    match canonical_bytes(verification_key, encryption_key, kind, payload, parent) {
        Err(e) => Err(e),
        Ok(canonical) => encoded(
            verification_key,
            encryption_key,
            kind,
            payload,
            parent,
            blake3_digest(canonical)@,
            ed25519_signature(secret, signing_preimage(canonical))@,
        ),
    }
}

/// Whether two byte strings hold the same bytes.
pub fn same_bytes(left: &[u8], right: &[u8]) -> (same: bool)
    ensures
        same == (left@ == right@),
{
    if left.len() != right.len() {
        return false;
    }
    let mut i: usize = 0;
    while i < left.len()
        invariant
            i <= left.len(),
            left.len() == right.len(),
            forall|j: int| 0 <= j < i ==> left@[j] == right@[j],
        decreases left.len() - i,
    {
        if left[i] != right[i] {
            return false;
        }
        i += 1;
    }
    assert(left@ =~= right@);
    true
}

/// The content id of a record: the hash of its canonical bytes.
pub fn compute_id(canonical: &[u8]) -> (id: [u8; 32])
    ensures
        id == blake3_digest(canonical@),
{
    blake3_hash(canonical)
}

/// Signs a record: the signature is over the domain tag followed by the
/// canonical bytes.
pub fn sign(secret: &[u8; 32], canonical: &[u8]) -> (signature: [u8; 64])
    ensures
        signature == ed25519_signature(secret@, signing_preimage(canonical@)),
{
    let tagged = preimage(canonical);
    ed25519_sign(secret, tagged.as_slice())
}

/// Verifies a record: first the claimed id against the hash of the canonical
/// bytes, then the signature over the tagged canonical bytes.
pub fn verify(
    verification_key: &[u8; 32],
    canonical: &[u8],
    signature: &[u8; 64],
    claimed_id: &[u8; 32],
) -> (outcome: Result<(), GxtError>)
    ensures
        outcome == verified(verification_key@, canonical@, signature@, claimed_id@),
{
    let expected = compute_id(canonical);
    if !same_bytes(claimed_id.as_slice(), expected.as_slice()) {
        return Err(GxtError::BadId);
    }
    if !ed25519_accepts_key(verification_key) {
        return Err(GxtError::Invalid);
    }
    let tagged = preimage(canonical);
    if !ed25519_verify_strict(verification_key, tagged.as_slice(), signature) {
        return Err(GxtError::BadSig);
    }
    Ok(())
}

/// Makes the token for a payload under the signing secret `key`.
pub fn make(key: &[u8; 32], kind: PayloadKind, payload: Payload, parent: Option<[u8; 32]>) -> (token:
    Result<String, GxtError>)
    ensures
        text_outcome(token) == made(key@, kind, payload@, option_bytes(parent)),
{
    let verification_key = ed25519_public(key);
    let (_, encryption_key) = derive_enc_from_signing(key);
    let canonical = get_canonical_representation(
        &verification_key,
        &encryption_key,
        kind,
        &payload,
        parent,
    )?;
    let id = compute_id(canonical.as_slice());
    let signature = sign(key, canonical.as_slice());
    encode_message(&verification_key, &encryption_key, kind, &payload, parent, &id, &signature)
}

} // verus!
