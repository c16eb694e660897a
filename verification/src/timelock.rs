//! Timelocks: a service that holds a master secret hands out, for a point in
//! time and a label, an id card at once and the matching secret only once
//! that time has come. What the service answers is decided here; listening
//! and the clock are left to the caller.

use vstd::prelude::*;
use vstd::utf8::encode_utf8;
use crate::codec::text_outcome;
use crate::error::GxtError;
use crate::hexcode::{hex_encode, hex_text};
use crate::message::{encrypt_message, encrypted, id_card, make_id_card};
use crate::payload::{entry_trees, lemma_dict_tree, Payload, Tree};

verus! {

/// The HKDF salt of every timelock derivation: the ASCII bytes of
/// `gxt-timelock-salt:v1`.
pub open spec fn salt() -> Seq<u8> {
    encode_utf8("gxt-timelock-salt:v1"@)
}

/// The start of the HKDF info under which the seed of a timelock is derived:
/// the ASCII bytes of `gxt-timelock|kdf:v1`.
pub open spec fn seed_info() -> Seq<u8> {
    encode_utf8("gxt-timelock|kdf:v1"@)
}

/// The HKDF info under which the secret of a timelock is derived from its
/// seed: the ASCII bytes of `gxt-x25519-sk:v1`.
pub open spec fn secret_info() -> Seq<u8> {
    encode_utf8("gxt-x25519-sk:v1"@)
}

/// The 32 bytes that HKDF with SHA-256 gives for a salt, input key material
/// and info, as the crate `hkdf` computes them.
pub uninterp spec fn hkdf_sha256(salt: Seq<u8>, material: Seq<u8>, info: Seq<u8>) -> [u8; 32];

/// The instant that `time` reads from text in the format of RFC 3339, in
/// nanoseconds since the Unix epoch, or `None` where it reads none.
pub uninterp spec fn rfc3339_instant(text: Seq<char>) -> Option<int>;

/// Calls `Hkdf::<Sha256>::new` with the salt and the key material, and has
/// `expand` fill 32 bytes under `info`. Taken on trust: the bytes go by the
/// three inputs alone; expanding to 32 bytes does not fail.
#[verifier::external_body]
pub(crate) fn hkdf_expand(salt: &[u8], material: &[u8], info: &[u8]) -> (out: [u8; 32])
    ensures
        out == hkdf_sha256(salt@, material@, info@),
{
    let mut out = [0u8; 32];
    let _ = hkdf::Hkdf::<sha2::Sha256>::new(Some(salt), material).expand(info, &mut out);
    out
}

/// Calls `OffsetDateTime::parse` of `time` with the format of RFC 3339 and
/// hands out the instant's nanoseconds since the Unix epoch. Taken on trust:
/// whether it reads the text, and as which instant, goes by the text alone.
#[verifier::external_body]
pub(crate) fn parse_rfc3339(text: &str) -> (instant: Option<i128>)
    ensures
        match instant {
            Some(nanoseconds) => rfc3339_instant(text@) == Some(nanoseconds as int),
            None => rfc3339_instant(text@) is None,
        },
{
    let format = time::format_description::well_known::Rfc3339;
    time::OffsetDateTime::parse(text, &format).ok().map(|at| at.unix_timestamp_nanos())
}

/// A timelock as anyone may ask for it.
#[derive(Clone, Debug, PartialEq, Eq)]
pub struct PublicTimelock {
    /// The time from which the secret is handed out, in the format of RFC
    /// 3339.
    pub timestamp: String,
    /// A label that tells timelocks for one time apart.
    pub label: String,
}

/// A timelock with its secret, as it is handed out once its time has come.
#[derive(Clone, Debug, PartialEq, Eq)]
pub struct PrivateTimelock {
    /// The time from which the secret is handed out.
    pub timestamp: String,
    /// The label of the timelock.
    pub label: String,
    /// The secret of the timelock, as hex.
    pub secret_key: String,
}

/// Why the service refuses.
#[derive(Clone, Copy, Debug, PartialEq, Eq, Structural)]
pub enum Refusal {
    /// The timestamp is not in the format of RFC 3339.
    BadTimestamp,
    /// The time of the timelock has not come.
    NotYet,
    /// The request names no id card to seal the secret for.
    NoIdCard,
    /// Making the token failed.
    Token(GxtError),
}

/// What names a timelock in its derivation: `T=`, the timestamp, `|L=`, the
/// label, all as UTF-8.
pub open spec fn context(timestamp: Seq<char>, label: Seq<char>) -> Seq<u8> {
    encode_utf8("T="@) + encode_utf8(timestamp) + encode_utf8("|L="@) + encode_utf8(label)
}

/// The secret of the timelock for `timestamp` and `label` under the master
/// secret `master`: a seed is derived from the master secret under the
/// timelock's context, and the secret from the seed.
pub open spec fn timelock_secret(master: Seq<u8>, timestamp: Seq<char>, label: Seq<char>) -> Seq<
    u8,
> {
    let seed = hkdf_sha256(salt(), master, seed_info() + context(timestamp, label))@;
    hkdf_sha256(salt(), seed, secret_info())@
}

/// The payload that stands for a public timelock.
pub open spec fn public_payload(timestamp: Seq<char>, label: Seq<char>) -> Tree {
    Tree::Dict(
        seq![
            (Tree::Text("label"@), Tree::Text(label)),
            (Tree::Text("timestamp"@), Tree::Text(timestamp)),
        ],
    )
}

/// The payload that stands for a private timelock.
pub open spec fn private_payload(
    timestamp: Seq<char>,
    label: Seq<char>,
    secret_key: Seq<char>,
) -> Tree {
    Tree::Dict(
        seq![
            (Tree::Text("label"@), Tree::Text(label)),
            (Tree::Text("timestamp"@), Tree::Text(timestamp)),
            (Tree::Text("secret_key"@), Tree::Text(secret_key)),
        ],
    )
}

impl PublicTimelock {
    /// The payload that stands for this timelock: its fields under their
    /// names.
    pub fn to_payload(&self) -> (payload: Payload)
        ensures
            payload@ == public_payload(self.timestamp@, self.label@),
    {
        let mut entries: Vec<(Payload, Payload)> = Vec::new();
        entries.push((Payload::Text("label".to_owned()), Payload::Text(self.label.clone())));
        entries.push(
            (Payload::Text("timestamp".to_owned()), Payload::Text(self.timestamp.clone())),
        );
        proof {
            lemma_dict_tree(entries);
            assert(entry_trees(entries@) =~= public_payload(self.timestamp@, self.label@)->Dict_0);
        }
        Payload::Dict(entries)
    }
}

impl PrivateTimelock {
    /// The payload that stands for this timelock: its fields under their
    /// names.
    pub fn to_payload(&self) -> (payload: Payload)
        ensures
            payload@ == private_payload(self.timestamp@, self.label@, self.secret_key@),
    {
        let mut entries: Vec<(Payload, Payload)> = Vec::new();
        entries.push((Payload::Text("label".to_owned()), Payload::Text(self.label.clone())));
        entries.push(
            (Payload::Text("timestamp".to_owned()), Payload::Text(self.timestamp.clone())),
        );
        entries.push(
            (Payload::Text("secret_key".to_owned()), Payload::Text(self.secret_key.clone())),
        );
        proof {
            lemma_dict_tree(entries);
            assert(entry_trees(entries@) =~= private_payload(
                self.timestamp@,
                self.label@,
                self.secret_key@,
            )->Dict_0);
        }
        Payload::Dict(entries)
    }
}

/// Derives the secret of a timelock from the master secret. The same master
/// secret, timestamp and label always give the same secret.
pub fn derive_timelock_x25519(master_secret: &[u8; 32], tl: &PublicTimelock) -> (secret: [u8; 32])
    ensures
        secret@ == timelock_secret(master_secret@, tl.timestamp@, tl.label@),
{
    let salt = "gxt-timelock-salt:v1".as_bytes();
    let mut info: Vec<u8> = Vec::new();
    info.extend_from_slice("gxt-timelock|kdf:v1".as_bytes());
    info.extend_from_slice("T=".as_bytes());
    info.extend_from_slice(tl.timestamp.as_str().as_bytes());
    info.extend_from_slice("|L=".as_bytes());
    info.extend_from_slice(tl.label.as_str().as_bytes());
    assert(info@ =~= seed_info() + context(tl.timestamp@, tl.label@));
    let seed = hkdf_expand(salt, master_secret.as_slice(), info.as_slice());
    hkdf_expand(salt, seed.as_slice(), "gxt-x25519-sk:v1".as_bytes())
}

/// What a result of text stands for.
pub open spec fn answer(got: Result<String, Refusal>) -> Result<Seq<char>, Refusal> {
    match got {
        Ok(text) => Ok(text@),
        Err(e) => Err(e),
    }
}

/// The answer to a request for the id card of a timelock: the timestamp must
/// be one; the card is made under the timelock's secret and carries the
/// timelock as its metadata.
pub open spec fn public_answer(master: Seq<u8>, timestamp: Seq<char>, label: Seq<char>) -> Result<
    Seq<char>,
    Refusal,
> {
    if rfc3339_instant(timestamp) is None {
        Err(Refusal::BadTimestamp)
    } else {
        match id_card(
            hex_text(timelock_secret(master, timestamp, label)),
            public_payload(timestamp, label),
        ) {
            Ok(token) => Ok(token),
            Err(e) => Err(Refusal::Token(e)),
        }
    }
}

/// The answer to a request for the secret of a timelock at the instant
/// `now`, sealed under `nonce`: the timestamp must be one and must not lie
/// after `now`; the request must name an id card; the message is made under
/// the master secret for the owner of that id card and carries the timelock
/// with its secret.
pub open spec fn private_answer(
    master: Seq<u8>,
    now: int,
    timestamp: Seq<char>,
    label: Seq<char>,
    id_card: Option<Seq<char>>,
    nonce: Seq<u8>,
) -> Result<Seq<char>, Refusal> {
    match rfc3339_instant(timestamp) {
        None => Err(Refusal::BadTimestamp),
        Some(due) => if now < due {
            Err(Refusal::NotYet)
        } else {
            match id_card {
                None => Err(Refusal::NoIdCard),
                Some(card) => match encrypted(
                    hex_text(master),
                    card,
                    private_payload(
                        timestamp,
                        label,
                        hex_text(timelock_secret(master, timestamp, label)),
                    ),
                    None,
                    nonce,
                ) {
                    Ok(token) => Ok(token),
                    Err(e) => Err(Refusal::Token(e)),
                },
            }
        },
    }
}

/// Answers a request for the id card of a timelock.
pub fn get_public(key: &[u8; 32], timelock: &PublicTimelock) -> (card: Result<String, Refusal>)
    ensures
        answer(card) == public_answer(key@, timelock.timestamp@, timelock.label@),
{
    if parse_rfc3339(timelock.timestamp.as_str()).is_none() {
        return Err(Refusal::BadTimestamp);
    }
    let secret = derive_timelock_x25519(key, timelock);
    let secret_hex = hex_encode(secret.as_slice());
    match make_id_card(secret_hex.as_str(), timelock.to_payload()) {
        Ok(token) => Ok(token),
        Err(e) => Err(Refusal::Token(e)),
    }
}

/// Answers a request for the secret of a timelock at the instant `now`,
/// given in nanoseconds since the Unix epoch. The secret is sealed for the
/// owner of `id_card` under a fresh random nonce.
pub fn get_private(key: &[u8; 32], now: i128, timelock: &PublicTimelock, id_card: Option<&str>) -> (
message: Result<String, Refusal>)
    ensures
        exists|nonce: Seq<u8>|
            nonce.len() == 24 && answer(message) == #[trigger] private_answer(
                key@,
                now as int,
                timelock.timestamp@,
                timelock.label@,
                option_str(id_card),
                nonce,
            ),
{
    let ghost any = Seq::new(24, |i: int| 0u8);
    let due = match parse_rfc3339(timelock.timestamp.as_str()) {
        None => {
            assert(private_answer(
                key@,
                now as int,
                timelock.timestamp@,
                timelock.label@,
                option_str(id_card),
                any,
            ) == Err::<Seq<char>, Refusal>(Refusal::BadTimestamp));
            return Err(Refusal::BadTimestamp);
        },
        Some(due) => due,
    };
    if now < due {
        assert(private_answer(
            key@,
            now as int,
            timelock.timestamp@,
            timelock.label@,
            option_str(id_card),
            any,
        ) == Err::<Seq<char>, Refusal>(Refusal::NotYet));
        return Err(Refusal::NotYet);
    }
    let secret = derive_timelock_x25519(key, timelock);
    let card = match id_card {
        None => {
            assert(private_answer(
                key@,
                now as int,
                timelock.timestamp@,
                timelock.label@,
                option_str(id_card),
                any,
            ) == Err::<Seq<char>, Refusal>(Refusal::NoIdCard));
            return Err(Refusal::NoIdCard);
        },
        Some(card) => card,
    };
    let private = PrivateTimelock {
        timestamp: timelock.timestamp.clone(),
        label: timelock.label.clone(),
        secret_key: hex_encode(secret.as_slice()),
    };
    let master_hex = hex_encode(key.as_slice());
    let payload = private.to_payload();
    let sealed = encrypt_message(master_hex.as_str(), card, &payload, None);
    proof {
        let nonce = choose|nonce: Seq<u8>|
            nonce.len() == 24 && text_outcome(sealed) == #[trigger] encrypted(
                master_hex@,
                card@,
                payload@,
                None,
                nonce,
            );
        assert(answer(
            match sealed {
                Ok(token) => Ok(token),
                Err(e) => Err(Refusal::Token(e)),
            },
        ) == private_answer(
            key@,
            now as int,
            timelock.timestamp@,
            timelock.label@,
            option_str(id_card),
            nonce,
        ));
    }
    match sealed {
        Ok(token) => Ok(token),
        Err(e) => Err(Refusal::Token(e)),
    }
}

/// The text of an optional string slice.
pub open spec fn option_str(text: Option<&str>) -> Option<Seq<char>> {
    match text {
        Some(t) => Some(t@),
        None => None,
    }
}

} // verus!
