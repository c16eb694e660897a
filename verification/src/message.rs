//! The public operations: making an id card, verifying a token, sealing a
//! message for the owner of an id card, and opening a message.

use vstd::prelude::*;
use crate::codec::{decode_message, decoded, text_outcome};
use crate::envelope::{option_bytes, Envelope, EnvelopeView, PayloadKind};
use crate::error::GxtError;
use crate::hexcode::{hex_bytes, hex_decode, hex_encode, hex_text, is_hex_text, parse_hex, parsed_hex};
use crate::keys::{
    derive_enc_from_signing, enc_derive_key_from_pairs, encryption_key, encryption_secret,
    parse_key, symmetric_key,
};
use crate::payload::{
    cbor_decode, cbor_decoded, cbor_encode, cbor_encoded, encodable, entry_trees, field,
    lemma_dict_tree, lookup, Payload, Tree,
};
use crate::primitives::{
    fresh_nonce, xchacha20poly1305_open, xchacha20poly1305_opened, xchacha20poly1305_seal,
    xchacha20poly1305_sealed,
};
use crate::reader::{envelope_outcome, open_record, opened};
use crate::signer::{made, make, same_bytes};
use crate::text::{trim, trimmed};

verus! {

/// The id card that the holder of the secret with the hex `key` makes for
/// `meta`: a token of kind `Id` with `meta` as its payload and no parent.
pub open spec fn id_card(key: Seq<char>, meta: Tree) -> Result<Seq<char>, GxtError> {
    match parsed_hex(trimmed(key), 32) {
        Err(e) => Err(e),
        Ok(secret) => made(secret, PayloadKind::Id, meta, None),
    }
}

/// The envelope that verifying the token `msg` gives, with the failures in
/// the order of the checks: prefix, text encoding, decompression, size,
/// shape and version, content id, signature.
pub open spec fn verified_message(msg: Seq<char>) -> Result<EnvelopeView, GxtError> {
    match decoded(trimmed(msg)) {
        Err(e) => Err(e),
        Ok(raw) => opened(raw),
    }
}

/// The sealed body that the holder of the signing secret `secret` makes of
/// `plaintext` for the owner of the public encryption key `theirs`.
pub open spec fn sealed(
    secret: Seq<u8>,
    theirs: Seq<u8>,
    plaintext: Tree,
    nonce: Seq<u8>,
) -> Result<Seq<u8>, GxtError> {
    if !encodable(plaintext) {
        Err(GxtError::Cbor)
    } else {
        match xchacha20poly1305_sealed(
            symmetric_key(encryption_secret(secret), theirs),
            nonce,
            cbor_encoded(plaintext),
        ) {
            None => Err(GxtError::Encryption),
            Some(ciphertext) => Ok(ciphertext),
        }
    }
}

/// The plaintext that the holder of the signing secret `secret` finds in a
/// body that the owner of the public encryption key `theirs` sealed.
pub open spec fn unsealed(
    secret: Seq<u8>,
    theirs: Seq<u8>,
    nonce: Seq<u8>,
    ciphertext: Seq<u8>,
) -> Result<Tree, GxtError> {
    match xchacha20poly1305_opened(
        symmetric_key(encryption_secret(secret), theirs),
        nonce,
        ciphertext,
    ) {
        None => Err(GxtError::Encryption),
        Some(plain) => match cbor_decoded(plain) {
            None => Err(GxtError::Cbor),
            Some(plaintext) => Ok(plaintext),
        },
    }
}

/// The payload of a message: the recipient's public encryption key under
/// `to`, and under `enc` the algorithm, the nonce and the sealed body.
pub open spec fn sealed_payload(to: Seq<u8>, nonce: Seq<u8>, ciphertext: Seq<u8>) -> Tree {
    Tree::Dict(
        seq![
            (Tree::Text("to"@), Tree::Text(hex_text(to))),
            (
                Tree::Text("enc"@),
                Tree::Dict(
                    seq![
                        (Tree::Text("ct"@), Tree::Text(hex_text(ciphertext))),
                        (Tree::Text("alg"@), Tree::Text("xchacha20poly1305"@)),
                        (Tree::Text("n24"@), Tree::Text(hex_text(nonce))),
                    ],
                ),
            ),
        ],
    )
}

/// What the payload of a message holds for its recipient.
pub struct SealedParts {
    /// The public encryption key that the message is addressed to.
    pub to: Seq<u8>,
    /// The nonce under which the body was sealed.
    pub nonce: Seq<u8>,
    /// The sealed body.
    pub ciphertext: Seq<u8>,
}

/// The entry under `name` that must be there and be text.
pub open spec fn text_entry(entries: Seq<(Tree, Tree)>, name: Seq<char>) -> Result<
    Seq<char>,
    GxtError,
> {
    match field(entries, name) {
        Some(Tree::Text(text)) => Ok(text),
        _ => Err(GxtError::Invalid),
    }
}

/// What the payload of a message holds for its recipient, read in the order
/// recipient, sealed part, nonce, body, with the first that is not as it must
/// be deciding the failure.
pub open spec fn sealed_parts(payload: Tree) -> Result<SealedParts, GxtError> {
    match payload {
        Tree::Dict(entries) => match text_entry(entries, "to"@) {
            Err(e) => Err(e),
            Ok(to_text) => match parsed_hex(to_text, 32) {
                Err(e) => Err(e),
                Ok(to) => match field(entries, "enc"@) {
                    Some(Tree::Dict(inner)) => match text_entry(inner, "n24"@) {
                        Err(e) => Err(e),
                        Ok(nonce_text) => match parsed_hex(nonce_text, 24) {
                            Err(e) => Err(e),
                            Ok(nonce) => match text_entry(inner, "ct"@) {
                                Err(e) => Err(e),
                                Ok(body) => if is_hex_text(body) {
                                    Ok(SealedParts { to, nonce, ciphertext: hex_bytes(body) })
                                } else {
                                    Err(GxtError::BadHex)
                                },
                            },
                        },
                    },
                    _ => Err(GxtError::Invalid),
                },
            },
        },
        _ => Err(GxtError::Invalid),
    }
}

/// The optional reference that optional hex text stands for.
pub open spec fn parent_reference(parent: Option<Seq<char>>) -> Result<Option<Seq<u8>>, GxtError> {
    match parent {
        None => Ok(None),
        Some(text) => match parsed_hex(text, 32) {
            Err(e) => Err(e),
            Ok(reference) => Ok(Some(reference)),
        },
    }
}

/// The message that the holder of the secret with the hex `key` makes of
/// `payload` for the owner of `id_card`, under the nonce `nonce`. The id card
/// is verified first; then come the sender's key, the sealing, the parent,
/// and the making of the token of kind `Msg`.
pub open spec fn encrypted(
    key: Seq<char>,
    id_card: Seq<char>,
    payload: Tree,
    parent: Option<Seq<char>>,
    nonce: Seq<u8>,
) -> Result<Seq<char>, GxtError> {
    match verified_message(id_card) {
        Err(e) => Err(e),
        Ok(card) => match parsed_hex(card.encryption_key, 32) {
            Err(e) => Err(e),
            Ok(theirs) => match parsed_hex(trimmed(key), 32) {
                Err(e) => Err(e),
                Ok(secret) => match sealed(secret, theirs, payload, nonce) {
                    Err(e) => Err(e),
                    Ok(ciphertext) => match parent_reference(parent) {
                        Err(e) => Err(e),
                        Ok(reference) => made(
                            secret,
                            PayloadKind::Msg,
                            sealed_payload(theirs, nonce, ciphertext),
                            reference,
                        ),
                    },
                },
            },
        },
    }
}

/// The envelope that the holder of the secret with the hex `key` gets from
/// the message `message`: the token is verified first; then come the
/// recipient's key, the parts of the payload, the check that the message is
/// addressed to this recipient, and only then the opening of the sealed body.
pub open spec fn decrypted(message: Seq<char>, key: Seq<char>) -> Result<EnvelopeView, GxtError> {
    match verified_message(message) {
        Err(e) => Err(e),
        Ok(envelope) => match parsed_hex(trimmed(key), 32) {
            Err(e) => Err(e),
            Ok(secret) => match sealed_parts(envelope.payload) {
                Err(e) => Err(e),
                Ok(parts) => if parts.to != encryption_key(secret) {
                    Err(GxtError::AccessDenied)
                } else {
                    match parsed_hex(envelope.encryption_key, 32) {
                        Err(e) => Err(e),
                        Ok(sender) => match unsealed(secret, sender, parts.nonce, parts.ciphertext) {
                            Err(e) => Err(e),
                            Ok(plaintext) => Ok(EnvelopeView { payload: plaintext, ..envelope }),
                        },
                    }
                },
            },
        },
    }
}

/// The text of an optional string.
pub open spec fn option_text(text: Option<String>) -> Option<Seq<char>> {
    match text {
        Some(t) => Some(t@),
        None => None,
    }
}

/// Creates an id card: a token that carries the maker's two public keys and
/// `meta`, an arbitrary payload.
pub fn make_id_card(key: &str, meta: Payload) -> (token: Result<String, GxtError>)
    ensures
        text_outcome(token) == id_card(key@, meta@),
{
    let secret = parse_key(trim(key))?;
    make(&secret, PayloadKind::Id, meta, None)
}

/// Verifies a token and hands out its envelope. A sealed payload stays
/// sealed.
pub fn verify_message(msg: &str) -> (envelope: Result<Envelope, GxtError>)
    ensures
        envelope_outcome(envelope) == verified_message(msg@),
{
    let raw = decode_message(trim(msg))?;
    open_record(raw.as_slice())
}

/// Seals `plaintext` for the owner of the public encryption key
/// `their_encryption_key` under `nonce`.
pub fn encrypt_payload_with_nonce(
    my_secret: &[u8; 32],
    their_encryption_key: &[u8; 32],
    plaintext: &Payload,
    nonce: &[u8; 24],
) -> (ciphertext: Result<Vec<u8>, GxtError>)
    ensures
        crate::codec::bytes_outcome(ciphertext) == sealed(
            my_secret@,
            their_encryption_key@,
            plaintext@,
            nonce@,
        ),
{
    let (my_encryption_secret, _) = derive_enc_from_signing(my_secret);
    let key = enc_derive_key_from_pairs(&my_encryption_secret, their_encryption_key);
    if !plaintext.is_encodable() {
        return Err(GxtError::Cbor);
    }
    let encoded = cbor_encode(plaintext);
    match xchacha20poly1305_seal(&key, nonce, encoded.as_slice()) {
        None => Err(GxtError::Encryption),
        Some(ciphertext) => Ok(ciphertext),
    }
}

/// Seals `plaintext` for the owner of the public encryption key
/// `their_encryption_key` under a fresh random nonce, and hands out the nonce
/// with the sealed body.
pub fn encrypt_payload(
    my_secret: &[u8; 32],
    their_encryption_key: &[u8; 32],
    plaintext: &Payload,
) -> (outcome: Result<([u8; 24], Vec<u8>), GxtError>)
    ensures
        match outcome {
            Ok((nonce, ciphertext)) => sealed(
                my_secret@,
                their_encryption_key@,
                plaintext@,
                nonce@,
            ) == Ok::<Seq<u8>, GxtError>(ciphertext@),
            Err(e) => exists|nonce: Seq<u8>|
                nonce.len() == 24 && #[trigger] sealed(
                    my_secret@,
                    their_encryption_key@,
                    plaintext@,
                    nonce,
                ) == Err::<Seq<u8>, GxtError>(e),
        },
{
    let nonce = fresh_nonce();
    match encrypt_payload_with_nonce(my_secret, their_encryption_key, plaintext, &nonce) {
        Ok(ciphertext) => Ok((nonce, ciphertext)),
        Err(e) => {
            assert(sealed(my_secret@, their_encryption_key@, plaintext@, nonce@) == Err::<
                Seq<u8>,
                GxtError,
            >(e));
            Err(e)
        },
    }
}

/// Opens a body that the owner of the public encryption key
/// `their_encryption_key` sealed for the holder of `my_secret`.
pub fn decrypt_payload(
    my_secret: &[u8; 32],
    their_encryption_key: &[u8; 32],
    nonce: &[u8; 24],
    ciphertext: &[u8],
) -> (plaintext: Result<Payload, GxtError>)
    ensures
        match plaintext {
            Ok(p) => unsealed(my_secret@, their_encryption_key@, nonce@, ciphertext@) == Ok::<
                Tree,
                GxtError,
            >(p@),
            Err(e) => unsealed(my_secret@, their_encryption_key@, nonce@, ciphertext@) == Err::<
                Tree,
                GxtError,
            >(e),
        },
{
    let (my_encryption_secret, _) = derive_enc_from_signing(my_secret);
    let key = enc_derive_key_from_pairs(&my_encryption_secret, their_encryption_key);
    match xchacha20poly1305_open(&key, nonce, ciphertext) {
        None => Err(GxtError::Encryption),
        Some(plain) => match cbor_decode(plain.as_slice()) {
            None => Err(GxtError::Cbor),
            Some(plaintext) => Ok(plaintext),
        },
    }
}

/// Builds the payload of a message from its parts.
pub fn build_sealed_payload(to: &[u8; 32], nonce: &[u8; 24], ciphertext: &[u8]) -> (payload: Payload)
    ensures
        payload@ == sealed_payload(to@, nonce@, ciphertext@),
{
    let mut inner: Vec<(Payload, Payload)> = Vec::new();
    inner.push((Payload::Text("ct".to_owned()), Payload::Text(hex_encode(ciphertext))));
    inner.push(
        (Payload::Text("alg".to_owned()), Payload::Text("xchacha20poly1305".to_owned())),
    );
    inner.push((Payload::Text("n24".to_owned()), Payload::Text(hex_encode(nonce.as_slice()))));
    let mut outer: Vec<(Payload, Payload)> = Vec::new();
    outer.push((Payload::Text("to".to_owned()), Payload::Text(hex_encode(to.as_slice()))));
    proof {
        lemma_dict_tree(inner);
        assert(entry_trees(inner@) =~= seq![
            (Tree::Text("ct"@), Tree::Text(hex_text(ciphertext@))),
            (Tree::Text("alg"@), Tree::Text("xchacha20poly1305"@)),
            (Tree::Text("n24"@), Tree::Text(hex_text(nonce@))),
        ]);
    }
    outer.push((Payload::Text("enc".to_owned()), Payload::Dict(inner)));
    proof {
        lemma_dict_tree(outer);
        assert(entry_trees(outer@) =~= sealed_payload(to@, nonce@, ciphertext@)->Dict_0);
    }
    Payload::Dict(outer)
}

/// Reads an optional reference from optional hex text.
pub fn parse_parent(parent: &Option<String>) -> (reference: Result<Option<[u8; 32]>, GxtError>)
    ensures
        match reference {
            Ok(r) => parent_reference(option_text(*parent)) == Ok::<Option<Seq<u8>>, GxtError>(
                option_bytes(r),
            ),
            Err(e) => parent_reference(option_text(*parent)) == Err::<Option<Seq<u8>>, GxtError>(e),
        },
{
    match parent {
        None => Ok(None),
        Some(text) => match parse_hex::<32>(text.as_str()) {
            Err(e) => Err(e),
            Ok(reference) => Ok(Some(reference)),
        },
    }
}

/// Creates a sealed message for the owner of `id_card` under the given
/// nonce. A nonce must never serve twice under one pair of keys:
/// [`encrypt_message`] draws a fresh one for every call.
pub fn encrypt_message_with_nonce(
    key: &str,
    id_card: &str,
    payload: &Payload,
    parent: Option<String>,
    nonce: &[u8; 24],
) -> (token: Result<String, GxtError>)
    ensures
        text_outcome(token) == encrypted(key@, id_card@, payload@, option_text(parent), nonce@),
{
    let card = verify_message(id_card)?;
    let their_encryption_key = parse_hex::<32>(card.encryption_key.as_str())?;
    let secret = parse_key(trim(key))?;
    let ciphertext = encrypt_payload_with_nonce(&secret, &their_encryption_key, payload, nonce)?;
    let reference = parse_parent(&parent)?;
    let message = build_sealed_payload(&their_encryption_key, nonce, ciphertext.as_slice());
    make(&secret, PayloadKind::Msg, message, reference)
}

/// Creates a sealed message for the owner of `id_card`, under a fresh random
/// nonce.
pub fn encrypt_message(key: &str, id_card: &str, payload: &Payload, parent: Option<String>) -> (token:
    Result<String, GxtError>)
    ensures
        exists|nonce: Seq<u8>|
            nonce.len() == 24 && text_outcome(token) == #[trigger] encrypted(
                key@,
                id_card@,
                payload@,
                option_text(parent),
                nonce,
            ),
{
    let nonce = fresh_nonce();
    let token = encrypt_message_with_nonce(key, id_card, payload, parent, &nonce);
    assert(text_outcome(token) == encrypted(
        key@,
        id_card@,
        payload@,
        option_text(parent),
        nonce@,
    ));
    token
}

/// What the payload of a message holds for its recipient, as it is held
/// while the message is opened.
pub struct SealedBody {
    /// The public encryption key that the message is addressed to.
    pub to: [u8; 32],
    /// The nonce under which the body was sealed.
    pub nonce: [u8; 24],
    /// The sealed body.
    pub ciphertext: Vec<u8>,
}

impl View for SealedBody {
    type V = SealedParts;

    open spec fn view(&self) -> SealedParts {
        SealedParts { to: self.to@, nonce: self.nonce@, ciphertext: self.ciphertext@ }
    }
}

/// Finds the entry under `name` that must be there and be text.
pub fn text_of<'a>(entries: &'a Vec<(Payload, Payload)>, name: &str) -> (text: Result<
    &'a String,
    GxtError,
>)
    ensures
        match text {
            Ok(t) => text_entry(entry_trees(entries@), name@) == Ok::<Seq<char>, GxtError>(t@),
            Err(e) => text_entry(entry_trees(entries@), name@) == Err::<Seq<char>, GxtError>(e),
        },
{
    match lookup(entries, name) {
        Some(Payload::Text(text)) => Ok(text),
        _ => Err(GxtError::Invalid),
    }
}

/// Reads out of the payload of a message what it holds for its recipient.
pub fn read_sealed_parts(payload: &Payload) -> (parts: Result<SealedBody, GxtError>)
    ensures
        match parts {
            Ok(p) => sealed_parts(payload@) == Ok::<SealedParts, GxtError>(p@),
            Err(e) => sealed_parts(payload@) == Err::<SealedParts, GxtError>(e),
        },
{
    let entries = match payload {
        Payload::Dict(entries) => entries,
        _ => {
            return Err(GxtError::Invalid);
        },
    };
    proof {
        lemma_dict_tree(*entries);
    }
    let to_text = text_of(entries, "to")?;
    let to = parse_hex::<32>(to_text.as_str())?;
    let inner = match lookup(entries, "enc") {
        Some(Payload::Dict(inner)) => inner,
        _ => {
            return Err(GxtError::Invalid);
        },
    };
    proof {
        lemma_dict_tree(*inner);
    }
    let nonce_text = text_of(inner, "n24")?;
    let nonce = parse_hex::<24>(nonce_text.as_str())?;
    let body = text_of(inner, "ct")?;
    match hex_decode(body.as_str()) {
        None => Err(GxtError::BadHex),
        Some(ciphertext) => Ok(SealedBody { to, nonce, ciphertext }),
    }
}

/// Verifies a message, checks that it is addressed to the holder of `key`,
/// opens its sealed body and hands out the envelope with the plaintext as
/// its payload. Nothing is opened before the signature has been verified,
/// and nothing is opened for a recipient whom the message does not name.
pub fn decrypt_message(message: &str, key: &str) -> (envelope: Result<Envelope, GxtError>)
    ensures
        envelope_outcome(envelope) == decrypted(message@, key@),
{
    let envelope = verify_message(message)?;
    let secret = parse_hex::<32>(trim(key))?;
    let parts = read_sealed_parts(&envelope.payload)?;
    let (_, my_encryption_key) = derive_enc_from_signing(&secret);
    if !same_bytes(parts.to.as_slice(), my_encryption_key.as_slice()) {
        return Err(GxtError::AccessDenied);
    }
    let sender = parse_hex::<32>(envelope.encryption_key.as_str())?;
    let plaintext = decrypt_payload(&secret, &sender, &parts.nonce, parts.ciphertext.as_slice())?;
    Ok(
        Envelope {
            version: envelope.version,
            verification_key: envelope.verification_key,
            encryption_key: envelope.encryption_key,
            kind: envelope.kind,
            payload: plaintext,
            parent: envelope.parent,
            id: envelope.id,
            signature: envelope.signature,
        },
    )
}

} // verus!
