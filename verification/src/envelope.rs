//! The record that a token carries: its fields, the canonical bytes that are
//! hashed and signed, and the full record with id and signature attached.

use vstd::prelude::*;
use crate::error::GxtError;
use crate::hexcode::{hex_encode, hex_text};
use crate::payload::{cbor_encode, cbor_encoded, encodable, lemma_array_tree, trees, Payload, Tree};
use crate::text::{same_text, trim, trimmed};

verus! {

/// The one version of the format that is written and accepted.
pub const VERSION: u8 = 2;

/// The size ceiling: the largest number of bytes that an encoded record may
/// take, with or without id and signature.
pub const MAX_RAW: usize = 65536;

/// What kind of payload a record carries.
#[derive(Clone, Copy, Debug, PartialEq, Eq, Structural)]
pub enum PayloadKind {
    /// An id card: the keys of a party with arbitrary metadata.
    Id,
    /// A message: a payload sealed for the owner of an id card.
    Msg,
}

/// The kind that `text` names, if it names one.
pub open spec fn kind_named(text: Seq<char>) -> Result<PayloadKind, GxtError> {
    if text == seq!['i', 'd'] {
        Ok(PayloadKind::Id)
    } else if text == seq!['m', 's', 'g'] {
        Ok(PayloadKind::Msg)
    } else {
        Err(GxtError::UnknownPayloadKind)
    }
}

impl PayloadKind {
    /// The name under which the kind is written into a record.
    pub open spec fn text(self) -> Seq<char> {
        match self {
            PayloadKind::Id => seq!['i', 'd'],
            PayloadKind::Msg => seq!['m', 's', 'g'],
        }
    }

    /// The name under which the kind is written into a record: `id` or `msg`.
    pub fn to_string(&self) -> (name: String)
        ensures
            name@ == self.text(),
    {
        proof {
            reveal_strlit("id");
            reveal_strlit("msg");
        }
        match self {
            PayloadKind::Id => {
                assert("id"@ =~= seq!['i', 'd']);
                "id".to_owned()
            },
            PayloadKind::Msg => {
                assert("msg"@ =~= seq!['m', 's', 'g']);
                "msg".to_owned()
            },
        }
    }

    /// Reads a kind from its name, white space around it aside.
    pub fn from_str(s: &str) -> (kind: Result<PayloadKind, GxtError>)
        ensures
            kind == kind_named(trimmed(s@)),
    {
        proof {
            reveal_strlit("id");
            reveal_strlit("msg");
            assert("id"@ =~= seq!['i', 'd']);
            assert("msg"@ =~= seq!['m', 's', 'g']);
        }
        let name = trim(s);
        if same_text(name, "id") {
            Ok(PayloadKind::Id)
        } else if same_text(name, "msg") {
            Ok(PayloadKind::Msg)
        } else {
            Err(GxtError::UnknownPayloadKind)
        }
    }
}

/// A name reads back as the kind that it was written for.
pub proof fn lemma_kind_round_trip(kind: PayloadKind)
    ensures
        kind_named(trimmed(kind.text())) == Ok::<PayloadKind, GxtError>(kind),
{
    let name = kind.text();
    assert(!crate::text::is_space(name.first()) && !crate::text::is_space(name.last()));
    crate::text::lemma_trimmed_tight(name);
    assert(seq!['i', 'd'] != seq!['m', 's', 'g']) by {
        assert(seq!['i', 'd'].len() == 2);
        assert(seq!['m', 's', 'g'].len() == 3);
    }
}

/// A parsed and verified record.
#[derive(Clone, Debug, PartialEq, Eq)]
pub struct Envelope {
    /// The version of the format.
    pub version: u8,
    /// The signer's verification key, as hex.
    pub verification_key: String,
    /// The signer's public encryption key, as hex.
    pub encryption_key: String,
    /// What kind of payload the record carries.
    pub kind: PayloadKind,
    /// The payload, which the library does not interpret.
    pub payload: Payload,
    /// The id of the record that this one answers, as hex, if there is one.
    pub parent: Option<String>,
    /// The content hash of the record, as hex.
    pub id: String,
    /// The signature of the record, as hex.
    pub signature: String,
}

/// What an [`Envelope`] stands for.
pub struct EnvelopeView {
    /// The version of the format.
    pub version: u8,
    /// The signer's verification key, as hex.
    pub verification_key: Seq<char>,
    /// The signer's public encryption key, as hex.
    pub encryption_key: Seq<char>,
    /// What kind of payload the record carries.
    pub kind: PayloadKind,
    /// The payload.
    pub payload: Tree,
    /// The id of the record that this one answers, as hex, if there is one.
    pub parent: Option<Seq<char>>,
    /// The content hash of the record, as hex.
    pub id: Seq<char>,
    /// The signature of the record, as hex.
    pub signature: Seq<char>,
}

impl View for Envelope {
    type V = EnvelopeView;

    open spec fn view(&self) -> EnvelopeView {
        EnvelopeView {
            version: self.version,
            verification_key: self.verification_key@,
            encryption_key: self.encryption_key@,
            kind: self.kind,
            payload: self.payload@,
            parent: match self.parent {
                Some(p) => Some(p@),
                None => None,
            },
            id: self.id@,
            signature: self.signature@,
        }
    }
}

/// The domain tag that stands before the canonical bytes when they are
/// signed: the ASCII letters `GXT`.
pub open spec fn domain_tag() -> Seq<u8> {
    seq![0x47u8, 0x58u8, 0x54u8]
}

/// What is signed for a record with the canonical bytes `canonical`.
pub open spec fn signing_preimage(canonical: Seq<u8>) -> Seq<u8> {
    domain_tag() + canonical
}

/// The hex text of an optional reference: empty where there is none.
pub open spec fn parent_text(parent: Option<Seq<u8>>) -> Seq<char> {
    match parent {
        Some(p) => hex_text(p),
        None => Seq::empty(),
    }
}

/// The six signable fields of a record in their fixed order: version, the two
/// keys as hex, the kind's name, the payload, and the parent as hex, or
/// empty text where there is none.
pub open spec fn signable_fields(
    verification_key: Seq<u8>,
    encryption_key: Seq<u8>,
    kind: PayloadKind,
    payload: Tree,
    parent: Option<Seq<u8>>,
) -> Seq<Tree> {
    seq![
        Tree::Integer(VERSION as int),
        Tree::Text(hex_text(verification_key)),
        Tree::Text(hex_text(encryption_key)),
        Tree::Text(kind.text()),
        payload,
        Tree::Text(parent_text(parent)),
    ]
}

/// The fields of a record as one array: the six signable fields, followed,
/// where the record is sealed by an id and a signature, by those two as hex.
pub open spec fn record(
    verification_key: Seq<u8>,
    encryption_key: Seq<u8>,
    kind: PayloadKind,
    payload: Tree,
    parent: Option<Seq<u8>>,
    seal: Option<(Seq<u8>, Seq<u8>)>,
) -> Tree {
    let signable = signable_fields(verification_key, encryption_key, kind, payload, parent);
    match seal {
        None => Tree::Array(signable),
        Some((id, signature)) => Tree::Array(
            signable + seq![Tree::Text(hex_text(id)), Tree::Text(hex_text(signature))],
        ),
    }
}

/// The encoding of [`record`], or the failure on a payload that cannot be
/// encoded.
pub open spec fn record_bytes(
    verification_key: Seq<u8>,
    encryption_key: Seq<u8>,
    kind: PayloadKind,
    payload: Tree,
    parent: Option<Seq<u8>>,
    seal: Option<(Seq<u8>, Seq<u8>)>,
) -> Result<Seq<u8>, GxtError> {
    if !encodable(payload) {
        Err(GxtError::Cbor)
    } else {
        Ok(cbor_encoded(record(verification_key, encryption_key, kind, payload, parent, seal)))
    }
}

/// The canonical bytes of a record: the encoding of its six signable fields,
/// which is what is hashed for the id and signed. Fails on a payload that
/// cannot be encoded and on bytes over the size ceiling.
pub open spec fn canonical_bytes(
    verification_key: Seq<u8>,
    encryption_key: Seq<u8>,
    kind: PayloadKind,
    payload: Tree,
    parent: Option<Seq<u8>>,
) -> Result<Seq<u8>, GxtError> {
    match record_bytes(verification_key, encryption_key, kind, payload, parent, None) {
        Err(e) => Err(e),
        Ok(bytes) => if bytes.len() > MAX_RAW {
            Err(GxtError::TooLarge)
        } else {
            Ok(bytes)
        },
    }
}

/// A record is encodable as soon as its payload is.
pub proof fn lemma_record_encodable(
    verification_key: Seq<u8>,
    encryption_key: Seq<u8>,
    kind: PayloadKind,
    payload: Tree,
    parent: Option<Seq<u8>>,
    seal: Option<(Seq<u8>, Seq<u8>)>,
)
    requires
        encodable(payload),
    ensures
        encodable(record(verification_key, encryption_key, kind, payload, parent, seal)),
{
    let whole = record(verification_key, encryption_key, kind, payload, parent, seal);
    let items = whole->Array_0;
    assert forall|i: int| 0 <= i < items.len() implies encodable(#[trigger] items[i]) by {
        if i == 4 {
            assert(items[i] == payload);
        } else if i == 0 {
            assert(items[i] == Tree::Integer(VERSION as int));
        } else {
            assert(items[i] is Text);
        }
    }
}

/// Encodes the fields of a record as one array: the six signable fields and,
/// where `seal` holds an id and a signature, those two behind them.
pub fn cbor_array(
    verification_key: &[u8; 32],
    encryption_key: &[u8; 32],
    kind: PayloadKind,
    payload: &Payload,
    parent: Option<[u8; 32]>,
    seal: Option<(&[u8; 32], &[u8; 64])>,
) -> (encoded: Result<Vec<u8>, GxtError>)
    ensures
        match encoded {
            Ok(bytes) => Ok::<Seq<u8>, GxtError>(bytes@) == record_bytes(
                verification_key@,
                encryption_key@,
                kind,
                payload@,
                option_bytes(parent),
                seal_bytes(seal),
            ),
            Err(e) => Err::<Seq<u8>, GxtError>(e) == record_bytes(
                verification_key@,
                encryption_key@,
                kind,
                payload@,
                option_bytes(parent),
                seal_bytes(seal),
            ),
        },
{
    if !payload.is_encodable() {
        return Err(GxtError::Cbor);
    }
    let parent_hex = match parent {
        Some(p) => hex_encode(p.as_slice()),
        None => String::new(),
    };
    let mut items: Vec<Payload> = Vec::new();
    items.push(Payload::Integer(VERSION as i128));
    items.push(Payload::Text(hex_encode(verification_key.as_slice())));
    items.push(Payload::Text(hex_encode(encryption_key.as_slice())));
    items.push(Payload::Text(kind.to_string()));
    items.push(payload.clone());
    items.push(Payload::Text(parent_hex));
    match seal {
        Some((id, signature)) => {
            items.push(Payload::Text(hex_encode(id.as_slice())));
            items.push(Payload::Text(hex_encode(signature.as_slice())));
        },
        None => {},
    }
    let whole = Payload::Array(items);
    proof {
        let spec_whole = record(
            verification_key@,
            encryption_key@,
            kind,
            payload@,
            option_bytes(parent),
            seal_bytes(seal),
        );
        lemma_array_tree(items);
        assert(trees(items@) =~= spec_whole->Array_0);
        lemma_record_encodable(
            verification_key@,
            encryption_key@,
            kind,
            payload@,
            option_bytes(parent),
            seal_bytes(seal),
        );
    }
    Ok(cbor_encode(&whole))
}

/// The bytes of an optional reference.
pub open spec fn option_bytes(parent: Option<[u8; 32]>) -> Option<Seq<u8>> {
    match parent {
        Some(p) => Some(p@),
        None => None,
    }
}

/// The bytes of an optional id and signature.
pub open spec fn seal_bytes(seal: Option<(&[u8; 32], &[u8; 64])>) -> Option<(Seq<u8>, Seq<u8>)> {
    match seal {
        Some((id, signature)) => Some((id@, signature@)),
        None => None,
    }
}

/// Encodes the six signable fields of a record: the bytes that are hashed for
/// the id and signed. The size ceiling is enforced here, before any
/// cryptographic operation.
pub fn get_canonical_representation(
    verification_key: &[u8; 32],
    encryption_key: &[u8; 32],
    kind: PayloadKind,
    payload: &Payload,
    parent: Option<[u8; 32]>,
) -> (canonical: Result<Vec<u8>, GxtError>)
    ensures
        match canonical {
            Ok(bytes) => Ok::<Seq<u8>, GxtError>(bytes@) == canonical_bytes(
                verification_key@,
                encryption_key@,
                kind,
                payload@,
                option_bytes(parent),
            ),
            Err(e) => Err::<Seq<u8>, GxtError>(e) == canonical_bytes(
                verification_key@,
                encryption_key@,
                kind,
                payload@,
                option_bytes(parent),
            ),
        },
{
    match cbor_array(verification_key, encryption_key, kind, payload, parent, None) {
        Err(e) => Err(e),
        Ok(bytes) => {
            if bytes.len() > MAX_RAW {
                Err(GxtError::TooLarge)
            } else {
                Ok(bytes)
            }
        },
    }
}

/// Puts the domain tag before the canonical bytes: what is signed.
pub fn preimage(canonical: &[u8]) -> (tagged: Vec<u8>)
    ensures
        tagged@ == signing_preimage(canonical@),
{
    let mut tagged: Vec<u8> = Vec::new();
    tagged.push(0x47);
    tagged.push(0x58);
    tagged.push(0x54);
    tagged.extend_from_slice(canonical);
    assert(tagged@ =~= signing_preimage(canonical@));
    tagged
}

} // verus!
