//! Reading a full record: the shape that its bytes must have, field by field
//! in the order of the fields, and the two checks that make it trusted.

use vstd::prelude::*;
use crate::envelope::{
    canonical_bytes, get_canonical_representation, kind_named, option_bytes, Envelope,
    EnvelopeView, PayloadKind, VERSION,
};
use crate::error::GxtError;
use crate::hexcode::{hex_encode, hex_text, parse_hex, parsed_hex};
use crate::payload::{cbor_decode, cbor_decoded, lemma_array_tree, trees, Payload, Tree};
use crate::signer::{verified, verify};
use crate::text::trimmed;

verus! {

/// The fields of a full record, the byte strings as bytes.
pub struct Fields {
    /// The signer's verification key.
    pub verification_key: Seq<u8>,
    /// The signer's public encryption key.
    pub encryption_key: Seq<u8>,
    /// What kind of payload the record carries.
    pub kind: PayloadKind,
    /// The payload.
    pub payload: Tree,
    /// The id of the record that this one answers, if there is one.
    pub parent: Option<Seq<u8>>,
    /// The claimed content hash.
    pub id: Seq<u8>,
    /// The claimed signature.
    pub signature: Seq<u8>,
}

/// The fields of a full record as they are held while it is read.
pub struct Record {
    /// The signer's verification key.
    pub verification_key: [u8; 32],
    /// The signer's public encryption key.
    pub encryption_key: [u8; 32],
    /// What kind of payload the record carries.
    pub kind: PayloadKind,
    /// The payload.
    pub payload: Payload,
    /// The id of the record that this one answers, if there is one.
    pub parent: Option<[u8; 32]>,
    /// The claimed content hash.
    pub id: [u8; 32],
    /// The claimed signature.
    pub signature: [u8; 64],
}

impl View for Record {
    type V = Fields;

    open spec fn view(&self) -> Fields {
        Fields {
            verification_key: self.verification_key@,
            encryption_key: self.encryption_key@,
            kind: self.kind,
            payload: self.payload@,
            parent: option_bytes(self.parent),
            id: self.id@,
            signature: self.signature@,
        }
    }
}

/// A field that must be text and hex for `size` bytes.
pub open spec fn hex_field(item: Tree, size: nat) -> Result<Seq<u8>, GxtError> {
    match item {
        Tree::Text(text) => parsed_hex(text, size),
        _ => Err(GxtError::Invalid),
    }
}

/// The field that must be text and name a kind.
pub open spec fn kind_field(item: Tree) -> Result<PayloadKind, GxtError> {
    match item {
        Tree::Text(text) => kind_named(trimmed(text)),
        _ => Err(GxtError::Invalid),
    }
}

/// The field that must be text, empty for no parent or else hex for the 32
/// bytes of one.
pub open spec fn parent_field(item: Tree) -> Result<Option<Seq<u8>>, GxtError> {
    match item {
        Tree::Text(text) => if text.len() == 0 {
            Ok(None)
        } else {
            match parsed_hex(text, 32) {
                Ok(parent) => Ok(Some(parent)),
                Err(e) => Err(e),
            }
        },
        _ => Err(GxtError::Invalid),
    }
}

/// The fields that a decoded value holds as a full record: an array of
/// eight, the version first, with the first field that is not as it must be
/// deciding the failure.
pub open spec fn fields_of(value: Tree) -> Result<Fields, GxtError> {
    if !(value is Array) || value->Array_0.len() != 8 {
        Err(GxtError::Invalid)
    } else {
        let items = value->Array_0;
        if items[0] != Tree::Integer(VERSION as int) {
            Err(GxtError::Invalid)
        } else if let Err(e) = hex_field(items[1], 32) {
            Err(e)
        } else if let Err(e) = hex_field(items[2], 32) {
            Err(e)
        } else if let Err(e) = kind_field(items[3]) {
            Err(e)
        } else if let Err(e) = parent_field(items[5]) {
            Err(e)
        } else if let Err(e) = hex_field(items[6], 32) {
            Err(e)
        } else if let Err(e) = hex_field(items[7], 64) {
            Err(e)
        } else {
            Ok(
                Fields {
                    verification_key: hex_field(items[1], 32).unwrap(),
                    encryption_key: hex_field(items[2], 32).unwrap(),
                    kind: kind_field(items[3]).unwrap(),
                    payload: items[4],
                    parent: parent_field(items[5]).unwrap(),
                    id: hex_field(items[6], 32).unwrap(),
                    signature: hex_field(items[7], 64).unwrap(),
                },
            )
        }
    }
}

/// What checking the fields of a record gives: the canonical bytes are
/// encoded anew from the fields, and the claimed id and signature are
/// verified against them.
pub open spec fn checked(fields: Fields) -> Result<(), GxtError> {
    match canonical_bytes(
        fields.verification_key,
        fields.encryption_key,
        fields.kind,
        fields.payload,
        fields.parent,
    ) {
        Err(e) => Err(e),
        Ok(canonical) => verified(
            fields.verification_key,
            canonical,
            fields.signature,
            fields.id,
        ),
    }
}

/// The envelope that is handed out for the fields of a verified record: the
/// byte strings as lower-case hex.
pub open spec fn envelope_of(fields: Fields) -> EnvelopeView {
    EnvelopeView {
        version: VERSION,
        verification_key: hex_text(fields.verification_key),
        encryption_key: hex_text(fields.encryption_key),
        kind: fields.kind,
        payload: fields.payload,
        parent: match fields.parent {
            Some(p) => Some(hex_text(p)),
            None => None,
        },
        id: hex_text(fields.id),
        signature: hex_text(fields.signature),
    }
}

/// The envelope that the bytes of a full record give, with the failures in
/// the order of the checks: one structured value, the shape of a record and
/// its version, the content id, the signature.
pub open spec fn opened(raw: Seq<u8>) -> Result<EnvelopeView, GxtError> {
    match cbor_decoded(raw) {
        None => Err(GxtError::Cbor),
        Some(value) => match fields_of(value) {
            Err(e) => Err(e),
            Ok(fields) => match checked(fields) {
                Err(e) => Err(e),
                Ok(()) => Ok(envelope_of(fields)),
            },
        },
    }
}

/// What a result of an envelope stands for.
pub open spec fn envelope_outcome(got: Result<Envelope, GxtError>) -> Result<
    EnvelopeView,
    GxtError,
> {
    match got {
        Ok(envelope) => Ok(envelope@),
        Err(e) => Err(e),
    }
}

/// What a result of a record stands for.
pub open spec fn fields_outcome(got: Result<Record, GxtError>) -> Result<Fields, GxtError> {
    match got {
        Ok(record) => Ok(record@),
        Err(e) => Err(e),
    }
}

/// Reads a field that must be text and hex for `SIZE` bytes.
pub fn hex_item<const SIZE: usize>(item: &Payload) -> (bytes: Result<[u8; SIZE], GxtError>)
    ensures
        match bytes {
            Ok(b) => hex_field(item@, SIZE as nat) == Ok::<Seq<u8>, GxtError>(b@),
            Err(e) => hex_field(item@, SIZE as nat) == Err::<Seq<u8>, GxtError>(e),
        },
{
    match item {
        Payload::Text(text) => parse_hex::<SIZE>(text.as_str()),
        _ => Err(GxtError::Invalid),
    }
}

/// Reads the field that must be text and name a kind.
pub fn kind_item(item: &Payload) -> (kind: Result<PayloadKind, GxtError>)
    ensures
        kind == kind_field(item@),
{
    match item {
        Payload::Text(text) => PayloadKind::from_str(text.as_str()),
        _ => Err(GxtError::Invalid),
    }
}

/// Reads the field that must be text, empty for no parent or else hex for
/// the 32 bytes of one.
pub fn parent_item(item: &Payload) -> (parent: Result<Option<[u8; 32]>, GxtError>)
    ensures
        match parent {
            Ok(p) => parent_field(item@) == Ok::<Option<Seq<u8>>, GxtError>(option_bytes(p)),
            Err(e) => parent_field(item@) == Err::<Option<Seq<u8>>, GxtError>(e),
        },
{
    match item {
        Payload::Text(text) => {
            if text.as_str().is_empty() {
                Ok(None)
            } else {
                match parse_hex::<32>(text.as_str()) {
                    Ok(parent) => Ok(Some(parent)),
                    Err(e) => Err(e),
                }
            }
        },
        _ => Err(GxtError::Invalid),
    }
}

/// Reads the fields of a full record out of a decoded value.
pub fn read_fields(value: Payload) -> (record: Result<Record, GxtError>)
    ensures
        fields_outcome(record) == fields_of(value@),
{
    let mut items = match value {
        Payload::Array(items) => items,
        _ => {
            return Err(GxtError::Invalid);
        },
    };
    proof {
        lemma_array_tree(items);
    }
    if items.len() != 8 {
        return Err(GxtError::Invalid);
    }
    let ghost listed = trees(items@);
    assert(forall|i: int| 0 <= i < 8 ==> listed[i] == items[i]@);
    match &items[0] {
        Payload::Integer(version) => {
            if *version != VERSION as i128 {
                return Err(GxtError::Invalid);
            }
        },
        _ => {
            return Err(GxtError::Invalid);
        },
    }
    assert(listed[0] == Tree::Integer(VERSION as int));
    let verification_key = hex_item::<32>(&items[1])?;
    let encryption_key = hex_item::<32>(&items[2])?;
    let kind = kind_item(&items[3])?;
    let parent = parent_item(&items[5])?;
    let id = hex_item::<32>(&items[6])?;
    let signature = hex_item::<64>(&items[7])?;
    let payload = items.remove(4);
    Ok(Record { verification_key, encryption_key, kind, payload, parent, id, signature })
}

/// Checks the fields of a record: encodes its canonical bytes anew and
/// verifies the claimed id and signature against them.
pub fn check_record(record: &Record) -> (outcome: Result<(), GxtError>)
    ensures
        outcome == checked(record@),
{
    let canonical = get_canonical_representation(
        &record.verification_key,
        &record.encryption_key,
        record.kind,
        &record.payload,
        record.parent,
    )?;
    verify(&record.verification_key, canonical.as_slice(), &record.signature, &record.id)
}

/// Hands out the envelope for the fields of a verified record.
pub fn into_envelope(record: Record) -> (envelope: Envelope)
    ensures
        envelope@ == envelope_of(record@),
{
    let parent = match record.parent {
        Some(p) => Some(hex_encode(p.as_slice())),
        None => None,
    };
    Envelope {
        version: VERSION,
        verification_key: hex_encode(record.verification_key.as_slice()),
        encryption_key: hex_encode(record.encryption_key.as_slice()),
        kind: record.kind,
        payload: record.payload,
        parent,
        id: hex_encode(record.id.as_slice()),
        signature: hex_encode(record.signature.as_slice()),
    }
}

/// Opens the bytes of a full record: decodes them, reads the fields, checks
/// id and signature, and hands out the envelope.
pub fn open_record(raw: &[u8]) -> (envelope: Result<Envelope, GxtError>)
    ensures
        envelope_outcome(envelope) == opened(raw@),
{
    let value = match cbor_decode(raw) {
        None => {
            return Err(GxtError::Cbor);
        },
        Some(value) => value,
    };
    let record = read_fields(value)?;
    check_record(&record)?;
    Ok(into_envelope(record))
}

} // verus!
