//! The ways in which making, reading or opening a token can fail.

use vstd::prelude::*;
use vstd::string::StringExecFns;
use crate::text::{decimal, decimal_text};

verus! {

/// Why an operation on a token failed.
///
/// Every failure is final: the inputs decide the outcome, so trying again
/// gives the same failure.
#[derive(Clone, Copy, Debug, PartialEq, Eq, Structural)]
pub enum GxtError {
    /// The token does not start with `gxt:`.
    BadPrefix,
    /// The text behind the prefix is not Base58.
    Decode,
    /// The bytes that the text stands for are no compressed record.
    Compression,
    /// Sealing failed, or the sealed body did not authenticate.
    Encryption,
    /// Bytes are not one structured value, or a value holds an integer that
    /// the binary encoding cannot hold.
    Cbor,
    /// A payload cannot be written as JSON, as a dictionary cannot whose
    /// keys JSON cannot have.
    Json,
    /// An encoded record takes more bytes than the size ceiling allows.
    TooLarge,
    /// The signature does not hold for the record under its verification key.
    BadSig,
    /// The id is not the content hash of the record.
    BadId,
    /// A hex string has an odd length or a character that is no hex digit.
    BadHex,
    /// A hex string stands for another number of bytes than is asked for.
    InvalidHexSize {
        /// The number of bytes asked for.
        expected: usize,
        /// The number of bytes that the string stands for.
        got: usize,
    },
    /// The message is addressed to another encryption key.
    AccessDenied,
    /// The record has the wrong shape, arity, field types or version.
    Invalid,
    /// The payload kind is neither `id` nor `msg`.
    UnknownPayloadKind,
}

impl GxtError {
    /// What the failure is called, for a reader.
    pub open spec fn message(self) -> Seq<char> {
        match self {
            GxtError::BadPrefix => "bad prefix"@,
            GxtError::Decode => "decode error"@,
            GxtError::Compression => "decompress error"@,
            GxtError::Encryption => "encrypt error"@,
            GxtError::Cbor => "cbor error"@,
            GxtError::Json => "json error"@,
            GxtError::TooLarge => "too large"@,
            GxtError::BadSig => "invalid signature"@,
            GxtError::BadId => "invalid id"@,
            GxtError::BadHex => "bad hex"@,
            GxtError::InvalidHexSize { expected, got } => "invalid hex size. expected "@
                + decimal_text(expected as nat) + " got "@ + decimal_text(got as nat),
            GxtError::AccessDenied => "access denied"@,
            GxtError::Invalid => "invalid record"@,
            GxtError::UnknownPayloadKind => "unknown payload kind"@,
        }
    }

    /// What the failure is called, for a reader.
    pub fn to_string(&self) -> (text: String)
        ensures
            text@ == self.message(),
    {
        match self {
            GxtError::BadPrefix => "bad prefix".to_owned(),
            GxtError::Decode => "decode error".to_owned(),
            GxtError::Compression => "decompress error".to_owned(),
            GxtError::Encryption => "encrypt error".to_owned(),
            GxtError::Cbor => "cbor error".to_owned(),
            GxtError::Json => "json error".to_owned(),
            GxtError::TooLarge => "too large".to_owned(),
            GxtError::BadSig => "invalid signature".to_owned(),
            GxtError::BadId => "invalid id".to_owned(),
            GxtError::BadHex => "bad hex".to_owned(),
            GxtError::InvalidHexSize { expected, got } => {
                let mut text = String::from_str("invalid hex size. expected ");
                text.append(decimal(*expected).as_str());
                text.append(" got ");
                text.append(decimal(*got).as_str());
                assert(text@ =~= self.message());
                text
            },
            GxtError::AccessDenied => "access denied".to_owned(),
            GxtError::Invalid => "invalid record".to_owned(),
            GxtError::UnknownPayloadKind => "unknown payload kind".to_owned(),
        }
    }
}

} // verus!
