//! What holds of the operations taken together.
//!
//! The codecs, the hash and the ciphers are computed outside this library
//! and known here by name only, so a law that leans on one of them says
//! which of its properties it leans on, for the values at hand.

use vstd::prelude::*;
use crate::codec::{
    base58_decoded, base58_encoded, behind_prefix, decoded, encoded, framed, prefix, restored,
    token_text, unframed, zstd_compressed, zstd_decompressed,
    COMPRESSION_LEVEL,
};
use crate::envelope::{
    canonical_bytes, lemma_kind_round_trip, record, record_bytes, signable_fields,
    signing_preimage, EnvelopeView, PayloadKind, MAX_RAW, VERSION,
};
use crate::error::GxtError;
use crate::hexcode::{hex_text, lemma_hex_round_trip, lemma_parse_written, parsed_hex};
use crate::keys::{encryption_key, encryption_secret, symmetric_key};
use crate::message::{
    decrypted, encrypted, id_card, parent_reference, sealed, sealed_parts, sealed_payload,
    verified_message, SealedParts,
};
use crate::payload::{canonical_tree, cbor_decoded, cbor_encoded, encodable, field, Tree};
use crate::primitives::{
    blake3_digest, ed25519_key_accepted, ed25519_public_key, ed25519_signature,
    ed25519_strictly_valid, x25519_shared_secret, xchacha20poly1305_opened,
    xchacha20poly1305_sealed,
};
use crate::reader::{checked, envelope_of, fields_of, hex_field, kind_field, parent_field, Fields};
use crate::signer::made;
use crate::text::{is_space, lemma_trimmed_tight, trimmed};

verus! {

/// Whether the binary encoding gives `tree` back from its bytes, in its
/// canonical form.
pub open spec fn cbor_restores(tree: Tree) -> bool {
    cbor_decoded(cbor_encoded(tree)) == Some(canonical_tree(tree))
}

/// Whether the compressor gives `raw` back from its frame.
pub open spec fn zstd_restores(raw: Seq<u8>) -> bool {
    zstd_decompressed(zstd_compressed(raw, COMPRESSION_LEVEL)) == Some(raw)
}

/// Whether the text encoding gives `data` back from its text, and the text
/// does not end in white space.
pub open spec fn base58_restores(data: Seq<u8>) -> bool {
    let text = base58_encoded(data);
    &&& base58_decoded(text) == Some(data)
    &&& text.len() > 0 ==> !is_space(text.last())
}

/// Whether the signature that `secret` gives the record with the canonical
/// bytes `canonical` holds under the public key of `secret`.
pub open spec fn signature_holds(secret: Seq<u8>, canonical: Seq<u8>) -> bool {
    let public = ed25519_public_key(secret)@;
    let tagged = signing_preimage(canonical);
    &&& ed25519_key_accepted(public)
    &&& ed25519_strictly_valid(public, tagged, ed25519_signature(secret, tagged)@)
}

/// The fields of the record that the holder of `secret` makes.
pub open spec fn made_fields(
    secret: Seq<u8>,
    kind: PayloadKind,
    payload: Tree,
    parent: Option<Seq<u8>>,
) -> Fields {
    let verification_key = ed25519_public_key(secret)@;
    let encryption_key = encryption_key(secret);
    let canonical = cbor_encoded(
        record(verification_key, encryption_key, kind, payload, parent, None),
    );
    Fields {
        verification_key,
        encryption_key,
        kind,
        payload,
        parent,
        id: blake3_digest(canonical)@,
        signature: ed25519_signature(secret, signing_preimage(canonical))@,
    }
}

/// The full record with the fields `fields`.
pub open spec fn full_record(fields: Fields) -> Tree {
    record(
        fields.verification_key,
        fields.encryption_key,
        fields.kind,
        fields.payload,
        fields.parent,
        Some((fields.id, fields.signature)),
    )
}

/// The fields that come back from the record that the holder of `secret`
/// makes: the fields that were made, the payload in its canonical form.
pub open spec fn returned_fields(
    secret: Seq<u8>,
    kind: PayloadKind,
    payload: Tree,
    parent: Option<Seq<u8>>,
) -> Fields {
    Fields { payload: canonical_tree(payload), ..made_fields(secret, kind, payload, parent) }
}

/// Whether what is computed outside carries the record that the holder of
/// `secret` makes faithfully: the binary encoding gives the record back
/// with its payload in canonical form, and encodes that form as it encodes
/// the payload itself; the compressor and the text encoding each give back
/// what they were given; and the signature holds under the signer's own
/// public key.
pub open spec fn carried(
    secret: Seq<u8>,
    kind: PayloadKind,
    payload: Tree,
    parent: Option<Seq<u8>>,
) -> bool {
    let fields = made_fields(secret, kind, payload, parent);
    let back = returned_fields(secret, kind, payload, parent);
    let canonical = cbor_encoded(
        record(fields.verification_key, fields.encryption_key, kind, payload, parent, None),
    );
    let raw = cbor_encoded(full_record(fields));
    &&& cbor_decoded(raw) == Some(full_record(back))
    &&& encodable(canonical_tree(payload))
    &&& cbor_encoded(
        record(
            fields.verification_key,
            fields.encryption_key,
            kind,
            canonical_tree(payload),
            parent,
            None,
        ),
    ) == canonical
    &&& zstd_restores(raw)
    &&& base58_restores(zstd_compressed(raw, COMPRESSION_LEVEL))
    &&& signature_holds(secret, canonical)
}

/// A framed token is its own trimming, and what stands behind its prefix is
/// the Base58 text, as long as that text does not end in white space.
pub proof fn lemma_framed_token(compressed: Seq<u8>)
    requires
        base58_encoded(compressed).len() > 0 ==> !is_space(base58_encoded(compressed).last()),
    ensures
        trimmed(framed(compressed)) == framed(compressed),
        behind_prefix(framed(compressed)) == Some(base58_encoded(compressed)),
{
    let text = base58_encoded(compressed);
    let token = framed(compressed);
    assert(token.first() == 'g');
    assert(token.last() == if text.len() > 0 {
        text.last()
    } else {
        ':'
    });
    lemma_trimmed_tight(token);
    assert(token.subrange(0, 4) =~= prefix());
    assert(token.subrange(4, token.len() as int) =~= text);
}

/// Reading a token gives back the bytes of the full record that it was
/// written from, wherever the compressor and the text encoding give back
/// what they were given.
pub proof fn decoding_undoes_encoding(
    verification_key: Seq<u8>,
    encryption_key: Seq<u8>,
    kind: PayloadKind,
    payload: Tree,
    parent: Option<Seq<u8>>,
    id: Seq<u8>,
    signature: Seq<u8>,
    token: Seq<char>,
)
    requires
        encoded(verification_key, encryption_key, kind, payload, parent, id, signature) == Ok::<
            Seq<char>,
            GxtError,
        >(token),
        record_bytes(
            verification_key,
            encryption_key,
            kind,
            payload,
            parent,
            Some((id, signature)),
        ) matches Ok(raw) && zstd_restores(raw) && base58_restores(
            zstd_compressed(raw, COMPRESSION_LEVEL),
        ),
    ensures
        decoded(token) == record_bytes(
            verification_key,
            encryption_key,
            kind,
            payload,
            parent,
            Some((id, signature)),
        ),
        decoded(trimmed(token)) == decoded(token),
{
    let raw = record_bytes(
        verification_key,
        encryption_key,
        kind,
        payload,
        parent,
        Some((id, signature)),
    )->Ok_0;
    lemma_framed_token(zstd_compressed(raw, COMPRESSION_LEVEL));
}

/// The fields of a full record read back from the record as they are.
pub proof fn lemma_fields_read_back(fields: Fields)
    requires
        fields.verification_key.len() == 32,
        fields.encryption_key.len() == 32,
        fields.parent matches Some(p) ==> p.len() == 32,
        fields.id.len() == 32,
        fields.signature.len() == 64,
    ensures
        fields_of(full_record(fields)) == Ok::<Fields, GxtError>(fields),
{
    let whole = full_record(fields);
    let items = whole->Array_0;
    let signable = signable_fields(
        fields.verification_key,
        fields.encryption_key,
        fields.kind,
        fields.payload,
        fields.parent,
    );
    assert(items.len() == 8);
    assert(items[0] == signable[0] && items[1] == signable[1] && items[2] == signable[2]
        && items[3] == signable[3] && items[4] == signable[4] && items[5] == signable[5]);
    lemma_parse_written(fields.verification_key);
    lemma_parse_written(fields.encryption_key);
    lemma_parse_written(fields.id);
    lemma_parse_written(fields.signature);
    lemma_kind_round_trip(fields.kind);
    match fields.parent {
        Some(p) => {
            lemma_parse_written(p);
            lemma_hex_round_trip(p);
            assert(parent_field(items[5]) == Ok::<Option<Seq<u8>>, GxtError>(Some(p)));
        },
        None => {
            assert(parent_field(items[5]) == Ok::<Option<Seq<u8>>, GxtError>(None));
        },
    }
    assert(hex_field(items[1], 32) == Ok::<Seq<u8>, GxtError>(fields.verification_key));
    assert(hex_field(items[2], 32) == Ok::<Seq<u8>, GxtError>(fields.encryption_key));
    assert(kind_field(items[3]) == Ok::<PayloadKind, GxtError>(fields.kind));
    assert(hex_field(items[6], 32) == Ok::<Seq<u8>, GxtError>(fields.id));
    assert(hex_field(items[7], 64) == Ok::<Seq<u8>, GxtError>(fields.signature));
}

/// A token that was made verifies, and the envelope holds what the token was
/// made from: the payload in its canonical form, the kind, the parent and
/// the maker's public keys.
///
/// It holds wherever the record is carried faithfully by what is computed
/// outside (see [`carried`]).
pub proof fn made_token_verifies(
    secret: Seq<u8>,
    kind: PayloadKind,
    payload: Tree,
    parent: Option<Seq<u8>>,
    token: Seq<char>,
)
    requires
        parent matches Some(p) ==> p.len() == 32,
        made(secret, kind, payload, parent) == Ok::<Seq<char>, GxtError>(token),
        carried(secret, kind, payload, parent),
    ensures
        verified_message(token) == Ok::<EnvelopeView, GxtError>(
            envelope_of(returned_fields(secret, kind, payload, parent)),
        ),
{
    let fields = made_fields(secret, kind, payload, parent);
    let back = returned_fields(secret, kind, payload, parent);
    let raw = cbor_encoded(full_record(fields));
    let compressed = zstd_compressed(raw, COMPRESSION_LEVEL);
    assert(token == token_text(raw));
    lemma_framed_token(compressed);
    assert(unframed(trimmed(token)) == Ok::<Seq<u8>, GxtError>(compressed));
    assert(decoded(trimmed(token)) == Ok::<Seq<u8>, GxtError>(raw));
    lemma_fields_read_back(back);
    assert(checked(back) == Ok::<(), GxtError>(()));
}

/// Verifying an id card gives back the metadata it was made with, in its
/// canonical form, under the verification key that belongs to the maker's
/// secret. Metadata that is its own canonical form comes back as it went in.
///
/// It holds for every secret and all metadata for which the id card is made,
/// wherever the record is carried faithfully by what is computed outside.
pub proof fn id_card_round_trip(key: Seq<char>, secret: Seq<u8>, meta: Tree, token: Seq<char>)
    requires
        parsed_hex(trimmed(key), 32) == Ok::<Seq<u8>, GxtError>(secret),
        id_card(key, meta) == Ok::<Seq<char>, GxtError>(token),
        carried(secret, PayloadKind::Id, meta, None),
    ensures
        verified_message(token) matches Ok(envelope) && envelope.payload == canonical_tree(meta)
            && envelope.verification_key == hex_text(ed25519_public_key(secret)@) && envelope.kind
            == PayloadKind::Id && envelope.parent is None && envelope.version == VERSION,
        canonical_tree(meta) == meta ==> (verified_message(token) matches Ok(envelope)
            && envelope.payload == meta),
{
    made_token_verifies(secret, PayloadKind::Id, meta, None, token);
}

/// The encryption key pair of a secret is a function of the secret: two
/// derivations from one secret give the same pair.
pub proof fn key_pairs_are_reproducible(
    secret: Seq<u8>,
    first: (Seq<u8>, Seq<u8>),
    second: (Seq<u8>, Seq<u8>),
)
    requires
        first.0 == encryption_secret(secret) && first.1 == encryption_key(secret),
        second.0 == encryption_secret(secret) && second.1 == encryption_key(secret),
    ensures
        first == second,
{
}

/// Two id cards made from the same secret and the same metadata are the same
/// text: nothing random goes into an id card.
pub proof fn id_cards_are_reproducible(
    key: Seq<char>,
    meta: Tree,
    first: Result<Seq<char>, GxtError>,
    second: Result<Seq<char>, GxtError>,
)
    requires
        first == id_card(key, meta),
        second == id_card(key, meta),
    ensures
        first == second,
{
}

/// A record is accepted only if its id is the hash of the canonical bytes of
/// the fields as they stand, and its signature holds for those bytes: what is
/// checked is encoded anew from the fields, never taken from the record.
pub proof fn acceptance_rests_on_the_fields(fields: Fields)
    requires
        checked(fields) is Ok,
    ensures
        canonical_bytes(
            fields.verification_key,
            fields.encryption_key,
            fields.kind,
            fields.payload,
            fields.parent,
        ) matches Ok(canonical) && fields.id == blake3_digest(canonical)@
            && ed25519_strictly_valid(
            fields.verification_key,
            signing_preimage(canonical),
            fields.signature,
        ),
{
}

/// A record whose signable fields were altered under the id and signature of
/// an accepted record is refused: with a wrong id where the hash of its
/// canonical bytes is another, and with a wrong signature where the
/// signature does not hold for them.
pub proof fn altered_record_is_refused(fields: Fields, altered: Fields, canonical: Seq<u8>)
    requires
        checked(fields) is Ok,
        altered.id == fields.id,
        altered.signature == fields.signature,
        altered.verification_key == fields.verification_key,
        canonical_bytes(
            altered.verification_key,
            altered.encryption_key,
            altered.kind,
            altered.payload,
            altered.parent,
        ) == Ok::<Seq<u8>, GxtError>(canonical),
    ensures
        blake3_digest(canonical)@ != fields.id ==> checked(altered) == Err::<(), GxtError>(
            GxtError::BadId,
        ),
        blake3_digest(canonical)@ == fields.id && !ed25519_strictly_valid(
            fields.verification_key,
            signing_preimage(canonical),
            fields.signature,
        ) ==> checked(altered) == Err::<(), GxtError>(GxtError::BadSig),
{
}

/// Changing the payload of an accepted record makes it refused, with a wrong
/// id or a wrong signature, unless the changed record has the same hash and
/// the old signature holds for it too.
pub proof fn tampered_payload_is_refused(fields: Fields, changed: Tree)
    requires
        checked(fields) is Ok,
        canonical_bytes(
            fields.verification_key,
            fields.encryption_key,
            fields.kind,
            changed,
            fields.parent,
        ) matches Ok(canonical) && (blake3_digest(canonical)@ != fields.id
            || !ed25519_strictly_valid(
            fields.verification_key,
            signing_preimage(canonical),
            fields.signature,
        )),
    ensures
        checked(Fields { payload: changed, ..fields }) == Err::<(), GxtError>(GxtError::BadId)
            || checked(Fields { payload: changed, ..fields }) == Err::<(), GxtError>(
            GxtError::BadSig,
        ),
{
    let altered = Fields { payload: changed, ..fields };
    let canonical = canonical_bytes(
        fields.verification_key,
        fields.encryption_key,
        fields.kind,
        changed,
        fields.parent,
    )->Ok_0;
    altered_record_is_refused(fields, altered, canonical);
}

/// The other kind.
pub open spec fn other_kind(kind: PayloadKind) -> PayloadKind {
    match kind {
        PayloadKind::Id => PayloadKind::Msg,
        PayloadKind::Msg => PayloadKind::Id,
    }
}

/// The kind is part of what is signed: the same fields under the other kind
/// are another record, and taking an accepted record for one of the other
/// kind makes it refused, with a wrong id or a wrong signature, unless the
/// other record has the same hash and the old signature holds for it too.
pub proof fn kind_is_bound(fields: Fields)
    requires
        checked(fields) is Ok,
        canonical_bytes(
            fields.verification_key,
            fields.encryption_key,
            other_kind(fields.kind),
            fields.payload,
            fields.parent,
        ) matches Ok(canonical) && (blake3_digest(canonical)@ != fields.id
            || !ed25519_strictly_valid(
            fields.verification_key,
            signing_preimage(canonical),
            fields.signature,
        )),
    ensures
        record(
            fields.verification_key,
            fields.encryption_key,
            other_kind(fields.kind),
            fields.payload,
            fields.parent,
            None,
        ) != record(
            fields.verification_key,
            fields.encryption_key,
            fields.kind,
            fields.payload,
            fields.parent,
            None,
        ),
        checked(Fields { kind: other_kind(fields.kind), ..fields }) == Err::<(), GxtError>(
            GxtError::BadId,
        ) || checked(Fields { kind: other_kind(fields.kind), ..fields }) == Err::<(), GxtError>(
            GxtError::BadSig,
        ),
{
    let altered = Fields { kind: other_kind(fields.kind), ..fields };
    let canonical = canonical_bytes(
        fields.verification_key,
        fields.encryption_key,
        other_kind(fields.kind),
        fields.payload,
        fields.parent,
    )->Ok_0;
    altered_record_is_refused(fields, altered, canonical);
    let here = signable_fields(
        fields.verification_key,
        fields.encryption_key,
        fields.kind,
        fields.payload,
        fields.parent,
    );
    let there = signable_fields(
        fields.verification_key,
        fields.encryption_key,
        other_kind(fields.kind),
        fields.payload,
        fields.parent,
    );
    assert(here[3] == Tree::Text(fields.kind.text()));
    assert(there[3] == Tree::Text(other_kind(fields.kind).text()));
    assert(fields.kind.text().len() != other_kind(fields.kind).text().len());
}

/// The size ceiling is inclusive, at every place where it is enforced: a
/// record of exactly 65536 bytes passes, one of a byte more is too large,
/// be it the canonical bytes, the full record that is written, or the full
/// record that is read.
pub proof fn ceiling_is_inclusive(
    verification_key: Seq<u8>,
    encryption_key: Seq<u8>,
    kind: PayloadKind,
    payload: Tree,
    parent: Option<Seq<u8>>,
    id: Seq<u8>,
    signature: Seq<u8>,
    compressed: Seq<u8>,
)
    ensures
        record_bytes(verification_key, encryption_key, kind, payload, parent, None) matches Ok(
            bytes,
        ) ==> (bytes.len() <= 65536 ==> canonical_bytes(
            verification_key,
            encryption_key,
            kind,
            payload,
            parent,
        ) == Ok::<Seq<u8>, GxtError>(bytes)) && (bytes.len() >= 65537 ==> canonical_bytes(
            verification_key,
            encryption_key,
            kind,
            payload,
            parent,
        ) == Err::<Seq<u8>, GxtError>(GxtError::TooLarge)),
        record_bytes(
            verification_key,
            encryption_key,
            kind,
            payload,
            parent,
            Some((id, signature)),
        ) matches Ok(raw) ==> (raw.len() <= 65536 ==> encoded(
            verification_key,
            encryption_key,
            kind,
            payload,
            parent,
            id,
            signature,
        ) == Ok::<Seq<char>, GxtError>(token_text(raw))) && (raw.len() >= 65537 ==> encoded(
            verification_key,
            encryption_key,
            kind,
            payload,
            parent,
            id,
            signature,
        ) == Err::<Seq<char>, GxtError>(GxtError::TooLarge)),
        zstd_decompressed(compressed) matches Some(raw) ==> (raw.len() <= 65536 ==> restored(
            compressed,
        ) == Ok::<Seq<u8>, GxtError>(raw)) && (raw.len() >= 65537 ==> restored(compressed) == Err::<
            Seq<u8>,
            GxtError,
        >(GxtError::TooLarge)),
{
}

/// The payload of a message reads back as the parts it was built from.
pub proof fn lemma_sealed_parts_read_back(to: Seq<u8>, nonce: Seq<u8>, ciphertext: Seq<u8>)
    requires
        to.len() == 32,
        nonce.len() == 24,
    ensures
        sealed_parts(sealed_payload(to, nonce, ciphertext)) == Ok::<SealedParts, GxtError>(
            SealedParts { to, nonce, ciphertext },
        ),
{
    reveal_strlit("to");
    reveal_strlit("enc");
    reveal_strlit("ct");
    reveal_strlit("alg");
    reveal_strlit("n24");
    let outer = sealed_payload(to, nonce, ciphertext)->Dict_0;
    let inner = outer[1].1->Dict_0;
    assert("to"@.len() == 2 && "enc"@.len() == 3 && "ct"@.len() == 2 && "alg"@.len() == 3
        && "n24"@.len() == 3);
    assert("alg"@[0] == 'a' && "n24"@[0] == 'n');
    assert("ct"@[0] == 'c' && "to"@[0] == 't');
    assert(field(outer, "enc"@) == Some(outer[1].1));
    assert(outer.drop_last().last() == outer[0]);
    assert(field(outer.drop_last(), "to"@) == Some(outer[0].1));
    assert(field(outer, "to"@) == Some(Tree::Text(hex_text(to))));
    assert(field(inner, "n24"@) == Some(inner[2].1));
    assert(inner.drop_last().last() == inner[1]);
    assert(inner.drop_last().drop_last().last() == inner[0]);
    assert(field(inner.drop_last().drop_last(), "ct"@) == Some(inner[0].1));
    assert(field(inner.drop_last(), "ct"@) == Some(inner[0].1));
    assert(field(inner, "ct"@) == Some(Tree::Text(hex_text(ciphertext))));
    lemma_parse_written(to);
    lemma_parse_written(nonce);
    lemma_hex_round_trip(ciphertext);
}

/// Whether the two parties agree on their shared secret: the key agreement
/// gives the holder of `mine` with the public key of `theirs` what it gives
/// the holder of `theirs` with the public key of `mine`.
pub open spec fn agreement_holds(mine: Seq<u8>, theirs: Seq<u8>) -> bool {
    x25519_shared_secret(encryption_secret(mine), encryption_key(theirs))
        == x25519_shared_secret(encryption_secret(theirs), encryption_key(mine))
}

/// Whether the cipher gives `plaintext` back from what it sealed under `key`
/// and `nonce`.
pub open spec fn cipher_restores(key: Seq<u8>, nonce: Seq<u8>, plaintext: Seq<u8>) -> bool {
    xchacha20poly1305_sealed(key, nonce, plaintext) matches Some(ciphertext)
        && xchacha20poly1305_opened(key, nonce, ciphertext) == Some(plaintext)
}

/// Whether the message that `sender` seals for `recipient` is carried
/// faithfully: the recipient's id card and the message are (see
/// [`carried`]), and the payload of the message, which is built in the
/// order of the encoding, is its own canonical form.
pub open spec fn message_carried(
    sender: Seq<u8>,
    recipient: Seq<u8>,
    meta: Tree,
    payload: Tree,
    parent: Option<Seq<char>>,
    nonce: Seq<u8>,
) -> bool {
    &&& carried(recipient, PayloadKind::Id, meta, None)
    &&& sealed(sender, encryption_key(recipient), payload, nonce) matches Ok(ciphertext)
    &&& parent_reference(parent) matches Ok(reference)
    &&& carried(
        sender,
        PayloadKind::Msg,
        sealed_payload(encryption_key(recipient), nonce, ciphertext),
        reference,
    )
    &&& canonical_tree(sealed_payload(encryption_key(recipient), nonce, ciphertext))
        == sealed_payload(encryption_key(recipient), nonce, ciphertext)
}

/// A message that was sealed for the owner of an id card verifies, and its
/// payload names the recipient's encryption key and holds the sealed body.
pub proof fn lemma_sealed_message_verifies(
    sender_key: Seq<char>,
    sender: Seq<u8>,
    recipient_key: Seq<char>,
    recipient: Seq<u8>,
    meta: Tree,
    card: Seq<char>,
    payload: Tree,
    parent: Option<Seq<char>>,
    nonce: Seq<u8>,
    token: Seq<char>,
)
    requires
        nonce.len() == 24,
        parsed_hex(trimmed(sender_key), 32) == Ok::<Seq<u8>, GxtError>(sender),
        parsed_hex(trimmed(recipient_key), 32) == Ok::<Seq<u8>, GxtError>(recipient),
        id_card(recipient_key, meta) == Ok::<Seq<char>, GxtError>(card),
        encrypted(sender_key, card, payload, parent, nonce) == Ok::<Seq<char>, GxtError>(token),
        message_carried(sender, recipient, meta, payload, parent, nonce),
    ensures
        ({
            &&& sealed(sender, encryption_key(recipient), payload, nonce) matches Ok(ciphertext)
            &&& verified_message(token) matches Ok(envelope)
            &&& envelope.kind == PayloadKind::Msg
            &&& envelope.verification_key == hex_text(ed25519_public_key(sender)@)
            &&& envelope.encryption_key == hex_text(encryption_key(sender))
            &&& envelope.payload == sealed_payload(encryption_key(recipient), nonce, ciphertext)
            &&& sealed_parts(envelope.payload) == Ok::<SealedParts, GxtError>(
                SealedParts { to: encryption_key(recipient), nonce, ciphertext },
            )
        }),
{
    made_token_verifies(recipient, PayloadKind::Id, meta, None, card);
    let theirs = encryption_key(recipient);
    lemma_parse_written(theirs);
    let ciphertext = sealed(sender, theirs, payload, nonce)->Ok_0;
    let reference = parent_reference(parent)->Ok_0;
    let message = sealed_payload(theirs, nonce, ciphertext);
    assert(reference matches Some(p) ==> p.len() == 32) by {
        if parent is Some {
            let text = parent->Some_0;
            assert(parsed_hex(text, 32) is Ok);
        }
    }
    assert(made(sender, PayloadKind::Msg, message, reference) == Ok::<Seq<char>, GxtError>(token));
    made_token_verifies(sender, PayloadKind::Msg, message, reference, token);
    lemma_sealed_parts_read_back(theirs, nonce, ciphertext);
}

/// A message that was sealed for the owner of an id card opens under that
/// owner's secret, and the envelope holds the plaintext that was sealed, in
/// its canonical form.
///
/// It holds for all secrets of sender and recipient, every payload and every
/// nonce for which the id card and the message are made, wherever both
/// records are carried faithfully by what is computed outside, the two
/// parties agree on their shared secret, and the cipher and the binary
/// encoding give the plaintext back.
pub proof fn sealed_message_opens(
    sender_key: Seq<char>,
    sender: Seq<u8>,
    recipient_key: Seq<char>,
    recipient: Seq<u8>,
    meta: Tree,
    card: Seq<char>,
    payload: Tree,
    parent: Option<Seq<char>>,
    nonce: Seq<u8>,
    token: Seq<char>,
)
    requires
        nonce.len() == 24,
        parsed_hex(trimmed(sender_key), 32) == Ok::<Seq<u8>, GxtError>(sender),
        parsed_hex(trimmed(recipient_key), 32) == Ok::<Seq<u8>, GxtError>(recipient),
        id_card(recipient_key, meta) == Ok::<Seq<char>, GxtError>(card),
        encrypted(sender_key, card, payload, parent, nonce) == Ok::<Seq<char>, GxtError>(token),
        message_carried(sender, recipient, meta, payload, parent, nonce),
        agreement_holds(sender, recipient),
        cipher_restores(
            symmetric_key(encryption_secret(sender), encryption_key(recipient)),
            nonce,
            cbor_encoded(payload),
        ),
        cbor_restores(payload),
    ensures
        decrypted(token, recipient_key) matches Ok(envelope) && envelope.payload
            == canonical_tree(payload) && envelope.kind == PayloadKind::Msg
            && envelope.verification_key == hex_text(ed25519_public_key(sender)@),
        canonical_tree(payload) == payload ==> (decrypted(token, recipient_key) matches Ok(
            envelope,
        ) && envelope.payload == payload),
{
    lemma_sealed_message_verifies(
        sender_key,
        sender,
        recipient_key,
        recipient,
        meta,
        card,
        payload,
        parent,
        nonce,
        token,
    );
    lemma_parse_written(encryption_key(sender));
}

/// A message that was sealed for the owner of an id card does not open under
/// the secret of a third party, one with another encryption key: access is
/// denied, and the cipher is not asked.
///
/// It holds wherever both records are carried faithfully by what is computed
/// outside; nothing is asked of the cipher or of the key agreement.
pub proof fn sealed_message_is_closed_to_a_third(
    sender_key: Seq<char>,
    sender: Seq<u8>,
    recipient_key: Seq<char>,
    recipient: Seq<u8>,
    third_key: Seq<char>,
    third: Seq<u8>,
    meta: Tree,
    card: Seq<char>,
    payload: Tree,
    parent: Option<Seq<char>>,
    nonce: Seq<u8>,
    token: Seq<char>,
)
    requires
        nonce.len() == 24,
        parsed_hex(trimmed(sender_key), 32) == Ok::<Seq<u8>, GxtError>(sender),
        parsed_hex(trimmed(recipient_key), 32) == Ok::<Seq<u8>, GxtError>(recipient),
        parsed_hex(trimmed(third_key), 32) == Ok::<Seq<u8>, GxtError>(third),
        encryption_key(third) != encryption_key(recipient),
        id_card(recipient_key, meta) == Ok::<Seq<char>, GxtError>(card),
        encrypted(sender_key, card, payload, parent, nonce) == Ok::<Seq<char>, GxtError>(token),
        message_carried(sender, recipient, meta, payload, parent, nonce),
    ensures
        decrypted(token, third_key) == Err::<EnvelopeView, GxtError>(GxtError::AccessDenied),
{
    lemma_sealed_message_verifies(
        sender_key,
        sender,
        recipient_key,
        recipient,
        meta,
        card,
        payload,
        parent,
        nonce,
        token,
    );
}

/// A message does not open under a secret whose encryption key is not the
/// one it is addressed to: the answer is that access is denied, and it is
/// given before the sealed body is touched, whatever that body holds.
pub proof fn stranger_is_denied(
    token: Seq<char>,
    envelope: EnvelopeView,
    parts: SealedParts,
    stranger_key: Seq<char>,
    stranger: Seq<u8>,
)
    requires
        verified_message(token) == Ok::<EnvelopeView, GxtError>(envelope),
        sealed_parts(envelope.payload) == Ok::<SealedParts, GxtError>(parts),
        parsed_hex(trimmed(stranger_key), 32) == Ok::<Seq<u8>, GxtError>(stranger),
        encryption_key(stranger) != parts.to,
    ensures
        decrypted(token, stranger_key) == Err::<EnvelopeView, GxtError>(GxtError::AccessDenied),
{
}

/// Verifying a message leaves its payload sealed: the envelope holds the
/// recipient and the sealed body, in canonical form, not the plaintext.
pub proof fn verified_message_stays_sealed(
    sender: Seq<u8>,
    theirs: Seq<u8>,
    nonce: Seq<u8>,
    ciphertext: Seq<u8>,
    reference: Option<Seq<u8>>,
    token: Seq<char>,
)
    requires
        reference matches Some(p) ==> p.len() == 32,
        made(
            sender,
            PayloadKind::Msg,
            sealed_payload(theirs, nonce, ciphertext),
            reference,
        ) == Ok::<Seq<char>, GxtError>(token),
        carried(sender, PayloadKind::Msg, sealed_payload(theirs, nonce, ciphertext), reference),
    ensures
        verified_message(token) matches Ok(envelope) && envelope.kind == PayloadKind::Msg
            && envelope.payload == canonical_tree(sealed_payload(theirs, nonce, ciphertext)),
{
    made_token_verifies(
        sender,
        PayloadKind::Msg,
        sealed_payload(theirs, nonce, ciphertext),
        reference,
        token,
    );
}

/// Whether `fields` bear out `envelope`: the envelope shows these fields,
/// their canonical bytes fit under the size ceiling, the id is the hash of
/// those bytes, and the signature holds for them under the verification key.
pub open spec fn borne_out(envelope: EnvelopeView, fields: Fields) -> bool {
    &&& envelope == envelope_of(fields)
    &&& fields.verification_key.len() == 32
    &&& fields.encryption_key.len() == 32
    &&& fields.id.len() == 32
    &&& fields.signature.len() == 64
    &&& fields.parent matches Some(p) ==> p.len() == 32
    &&& canonical_bytes(
        fields.verification_key,
        fields.encryption_key,
        fields.kind,
        fields.payload,
        fields.parent,
    ) matches Ok(canonical) && canonical.len() <= MAX_RAW && fields.id == blake3_digest(
        canonical,
    )@ && ed25519_key_accepted(fields.verification_key) && ed25519_strictly_valid(
        fields.verification_key,
        signing_preimage(canonical),
        fields.signature,
    )
}

/// Every envelope that verifying hands out is borne out by the fields of the
/// record it was read from, and that record fits under the size ceiling:
/// what an envelope must hold of id, signature and size is established by
/// verifying, for every token.
pub proof fn verified_envelope_is_borne_out(token: Seq<char>, envelope: EnvelopeView)
    requires
        verified_message(token) == Ok::<EnvelopeView, GxtError>(envelope),
    ensures
        envelope.version == VERSION,
        ({
            &&& decoded(trimmed(token)) matches Ok(raw)
            &&& raw.len() <= MAX_RAW
            &&& cbor_decoded(raw) matches Some(value)
            &&& fields_of(value) matches Ok(fields)
            &&& borne_out(envelope, fields)
        }),
{
    let raw = decoded(trimmed(token))->Ok_0;
    let compressed = unframed(trimmed(token))->Ok_0;
    assert(restored(compressed) == Ok::<Seq<u8>, GxtError>(raw));
    let value = cbor_decoded(raw)->Some_0;
    let fields = fields_of(value)->Ok_0;
    assert(checked(fields) is Ok);
    let items = value->Array_0;
    assert(hex_field(items[1], 32) == Ok::<Seq<u8>, GxtError>(fields.verification_key));
    assert(hex_field(items[2], 32) == Ok::<Seq<u8>, GxtError>(fields.encryption_key));
    assert(hex_field(items[6], 32) == Ok::<Seq<u8>, GxtError>(fields.id));
    assert(hex_field(items[7], 64) == Ok::<Seq<u8>, GxtError>(fields.signature));
    assert(parent_field(items[5]) == Ok::<Option<Seq<u8>>, GxtError>(fields.parent));
}

/// A message is opened only after it was verified and found to be addressed
/// to the holder of the key: the envelope with the plaintext is the verified
/// envelope with nothing but the payload changed, and the verified payload
/// names the encryption key of the one who opens it.
pub proof fn opened_message_was_verified(
    message: Seq<char>,
    key: Seq<char>,
    envelope: EnvelopeView,
)
    requires
        decrypted(message, key) == Ok::<EnvelopeView, GxtError>(envelope),
    ensures
        ({
            &&& verified_message(message) matches Ok(verified)
            &&& envelope == (EnvelopeView { payload: envelope.payload, ..verified })
            &&& parsed_hex(trimmed(key), 32) matches Ok(secret)
            &&& sealed_parts(verified.payload) matches Ok(parts)
            &&& parts.to == encryption_key(secret)
        }),
{
}

} // verus!
