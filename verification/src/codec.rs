//! Token framing: the bytes of a full record are compressed, written as
//! Base58 and prefixed with `gxt:`; reading a token undoes the three.

use vstd::prelude::*;
use vstd::string::StringExecFns;
use vstd::string::StrSliceExecFns;
use crate::envelope::{cbor_array, option_bytes, record_bytes, PayloadKind, MAX_RAW};
use crate::error::GxtError;
use crate::payload::Payload;

verus! {

/// The prefix that every token starts with.
pub const PREFIX: &'static str = "gxt:";

/// The level at which records are compressed.
pub const COMPRESSION_LEVEL: i32 = 3;

/// The characters of the prefix.
pub open spec fn prefix() -> Seq<char> {
    seq!['g', 'x', 't', ':']
}

/// The Base58 text that `bs58::encode` writes for `data`.
pub uninterp spec fn base58_encoded(data: Seq<u8>) -> Seq<char>;

/// The bytes that `bs58::decode` reads from `text`, or `None` where it fails.
pub uninterp spec fn base58_decoded(text: Seq<char>) -> Option<Seq<u8>>;

/// The zstd frame that `zstd::encode_all` gives for `data` at `level`.
pub uninterp spec fn zstd_compressed(data: Seq<u8>, level: i32) -> Seq<u8>;

/// The bytes that `zstd::decode_all` restores from `data`, or `None` where
/// `data` is no zstd frame.
pub uninterp spec fn zstd_decompressed(data: Seq<u8>) -> Option<Seq<u8>>;

/// Calls `bs58::encode` with the default alphabet and collects the text.
/// Taken on trust: the text goes by the data alone.
#[verifier::external_body]
pub(crate) fn base58_encode(data: &[u8]) -> (text: String)
    ensures
        text@ == base58_encoded(data@),
{
    bs58::encode(data).into_string()
}

/// Calls `bs58::decode` with the default alphabet and collects the bytes.
/// Taken on trust: whether it reads the text, and what it reads, goes by the
/// text alone.
#[verifier::external_body]
pub(crate) fn base58_decode(text: &str) -> (data: Option<Vec<u8>>)
    ensures
        match data {
            Some(d) => base58_decoded(text@) == Some(d@),
            None => base58_decoded(text@) is None,
        },
{
    bs58::decode(text).into_vec().ok()
}

/// Calls `zstd::encode_all` at one of the ordinary levels. Taken on trust: it
/// gives a frame, and the frame goes by the data and the level alone. It
/// reads from memory and writes to memory, so nothing but want of memory
/// makes it fail.
#[verifier::external_body]
pub(crate) fn zstd_compress(data: &[u8], level: i32) -> (frame: Option<Vec<u8>>)
    requires
        1 <= level <= 19,
    ensures
        frame is Some,
        frame matches Some(f) ==> f@ == zstd_compressed(data@, level),
{
    zstd::encode_all(data, level).ok()
}

/// Calls `zstd::decode_all`. Taken on trust: whether it restores anything,
/// and what, goes by the data alone; it fails on data that is no zstd frame,
/// and on nothing else but want of memory.
#[verifier::external_body]
pub(crate) fn zstd_decompress(data: &[u8]) -> (restored: Option<Vec<u8>>)
    ensures
        match restored {
            Some(r) => zstd_decompressed(data@) == Some(r@),
            None => zstd_decompressed(data@) is None,
        },
{
    zstd::decode_all(data).ok()
}

/// The text of the token that frames the compressed record `compressed`.
pub open spec fn framed(compressed: Seq<u8>) -> Seq<char> {
    prefix() + base58_encoded(compressed)
}

/// The text of the token for the full record with the bytes `raw`.
pub open spec fn token_text(raw: Seq<u8>) -> Seq<char> {
    framed(zstd_compressed(raw, COMPRESSION_LEVEL))
}

/// What is left of `text` behind the prefix, if it starts with the prefix.
pub open spec fn behind_prefix(text: Seq<char>) -> Option<Seq<char>> {
    if text.len() >= 4 && text.subrange(0, 4) == prefix() {
        Some(text.subrange(4, text.len() as int))
    } else {
        None
    }
}

/// The compressed record that a token frames: the prefix must be there, and
/// what follows it must be Base58.
pub open spec fn unframed(token: Seq<char>) -> Result<Seq<u8>, GxtError> {
    match behind_prefix(token) {
        None => Err(GxtError::BadPrefix),
        Some(rest) => match base58_decoded(rest) {
            None => Err(GxtError::Decode),
            Some(compressed) => Ok(compressed),
        },
    }
}

/// What restoring the record from its compressed form gives: the bytes must
/// be a zstd frame, and what it restores must fit under the size ceiling.
pub open spec fn restored(compressed: Seq<u8>) -> Result<Seq<u8>, GxtError> {
    match zstd_decompressed(compressed) {
        None => Err(GxtError::Compression),
        Some(raw) => if raw.len() > MAX_RAW {
            Err(GxtError::TooLarge)
        } else {
            Ok(raw)
        },
    }
}

/// The bytes of the full record that a token carries, with the failures in
/// the order of the checks: prefix, Base58, decompression, size.
pub open spec fn decoded(token: Seq<char>) -> Result<Seq<u8>, GxtError> {
    match unframed(token) {
        Err(e) => Err(e),
        Ok(compressed) => restored(compressed),
    }
}

/// Splits the prefix off a token.
pub fn strip_prefix(token: &str) -> (rest: Option<&str>)
    ensures
        match rest {
            Some(r) => behind_prefix(token@) == Some(r@),
            None => behind_prefix(token@) is None,
        },
{
    let len = token.unicode_len();
    if len < 4 {
        return None;
    }
    if token.get_char(0) == 'g' && token.get_char(1) == 'x' && token.get_char(2) == 't'
        && token.get_char(3) == ':' {
        assert(token@.subrange(0, 4) =~= prefix());
        Some(token.substring_char(4, len))
    } else {
        assert(token@.subrange(0, 4) != prefix()) by {
            let head = token@.subrange(0, 4);
            assert(head[0] == token@[0] && head[1] == token@[1] && head[2] == token@[2] && head[3]
                == token@[3]);
        }
        None
    }
}

/// Frames a compressed record as a token: the prefix, then the bytes as
/// Base58.
pub fn frame(compressed: &[u8]) -> (token: String)
    ensures
        token@ == framed(compressed@),
{
    proof {
        reveal_strlit("gxt:");
        assert("gxt:"@ =~= prefix());
    }
    let body = base58_encode(compressed);
    let mut token = String::from_str(PREFIX);
    token.append(body.as_str());
    token
}

/// Takes the frame off a token: the compressed record behind the prefix.
pub fn unframe(token: &str) -> (compressed: Result<Vec<u8>, GxtError>)
    ensures
        match compressed {
            Ok(c) => unframed(token@) == Ok::<Seq<u8>, GxtError>(c@),
            Err(e) => unframed(token@) == Err::<Seq<u8>, GxtError>(e),
        },
{
    match strip_prefix(token) {
        None => Err(GxtError::BadPrefix),
        Some(rest) => match base58_decode(rest) {
            None => Err(GxtError::Decode),
            Some(compressed) => Ok(compressed),
        },
    }
}

/// What a result of bytes stands for.
pub open spec fn bytes_outcome(got: Result<Vec<u8>, GxtError>) -> Result<Seq<u8>, GxtError> {
    match got {
        Ok(bytes) => Ok(bytes@),
        Err(e) => Err(e),
    }
}

/// What a result of text stands for.
pub open spec fn text_outcome(got: Result<String, GxtError>) -> Result<Seq<char>, GxtError> {
    match got {
        Ok(text) => Ok(text@),
        Err(e) => Err(e),
    }
}

/// Holds the bytes of a record to the size ceiling.
pub fn check_size(raw: Vec<u8>) -> (checked: Result<Vec<u8>, GxtError>)
    ensures
        checked == (if raw.len() > MAX_RAW {
            Err::<Vec<u8>, GxtError>(GxtError::TooLarge)
        } else {
            Ok::<Vec<u8>, GxtError>(raw)
        }),
{
    if raw.len() > MAX_RAW {
        Err(GxtError::TooLarge)
    } else {
        Ok(raw)
    }
}

/// The token for a full record, with the failures in the order of the
/// checks: a payload that cannot be encoded, then the size ceiling.
pub open spec fn encoded(
    verification_key: Seq<u8>,
    encryption_key: Seq<u8>,
    kind: PayloadKind,
    payload: crate::payload::Tree,
    parent: Option<Seq<u8>>,
    id: Seq<u8>,
    signature: Seq<u8>,
) -> Result<Seq<char>, GxtError> {
    match record_bytes(
        verification_key,
        encryption_key,
        kind,
        payload,
        parent,
        Some((id, signature)),
    ) {
        Err(e) => Err(e),
        Ok(raw) => if raw.len() > MAX_RAW {
            Err(GxtError::TooLarge)
        } else {
            Ok(token_text(raw))
        },
    }
}

/// Writes a full record, with id and signature attached, as a token: encode,
/// hold to the size ceiling, compress, frame.
pub fn encode_message(
    verification_key: &[u8; 32],
    encryption_key: &[u8; 32],
    kind: PayloadKind,
    payload: &Payload,
    parent: Option<[u8; 32]>,
    id: &[u8; 32],
    signature: &[u8; 64],
) -> (token: Result<String, GxtError>)
    ensures
        text_outcome(token) == encoded(
            verification_key@,
            encryption_key@,
            kind,
            payload@,
            option_bytes(parent),
            id@,
            signature@,
        ),
{
    let raw = cbor_array(
        verification_key,
        encryption_key,
        kind,
        payload,
        parent,
        Some((id, signature)),
    )?;
    let raw = check_size(raw)?;
    match zstd_compress(raw.as_slice(), COMPRESSION_LEVEL) {
        None => Err(GxtError::Compression),
        Some(compressed) => Ok(frame(compressed.as_slice())),
    }
}

/// Reads the bytes of the full record out of a token: strip the prefix, read
/// the Base58, decompress, hold to the size ceiling.
pub fn decode_message(message: &str) -> (raw: Result<Vec<u8>, GxtError>)
    ensures
        bytes_outcome(raw) == decoded(message@),
{
    let compressed = unframe(message)?;
    match zstd_decompress(compressed.as_slice()) {
        None => Err(GxtError::Compression),
        Some(raw) => check_size(raw),
    }
}

} // verus!
