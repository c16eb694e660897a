//! Hex text: two digits for each byte, lower case when written, either case
//! when read.

use vstd::prelude::*;
use crate::error::GxtError;

verus! {

/// The sixteen digits in the order of their values.
pub open spec fn digits() -> Seq<char> {
    seq!['0', '1', '2', '3', '4', '5', '6', '7', '8', '9', 'a', 'b', 'c', 'd', 'e', 'f']
}

/// The value of a hex digit of either case, or `None` for any other character.
pub open spec fn digit_value(c: char) -> Option<int> {
    let n = c as u32;
    if 0x30 <= n <= 0x39 {
        Some(n - 0x30)
    } else if 0x61 <= n <= 0x66 {
        Some(n - 0x61 + 10)
    } else if 0x41 <= n <= 0x46 {
        Some(n - 0x41 + 10)
    } else {
        None
    }
}

/// The hex text of `bytes`: for each byte its high digit, then its low digit.
pub open spec fn hex_text(bytes: Seq<u8>) -> Seq<char> {
    Seq::new(
        2 * bytes.len(),
        |i: int|
            if i % 2 == 0 {
                digits()[bytes[i / 2] as int / 16]
            } else {
                digits()[bytes[i / 2] as int % 16]
            },
    )
}

/// Whether `text` is hex text: an even number of hex digits.
pub open spec fn is_hex_text(text: Seq<char>) -> bool {
    &&& text.len() % 2 == 0
    &&& forall|i: int| 0 <= i < text.len() ==> (#[trigger] digit_value(text[i])) is Some
}

/// The bytes that hex text stands for.
pub open spec fn hex_bytes(text: Seq<char>) -> Seq<u8> {
    Seq::new(
        text.len() / 2,
        |i: int|
            (16 * digit_value(text[2 * i]).unwrap() + digit_value(text[2 * i + 1]).unwrap()) as u8,
    )
}

/// What reading `text` as exactly `size` bytes of hex gives.
pub open spec fn parsed_hex(text: Seq<char>, size: nat) -> Result<Seq<u8>, GxtError> {
    if !is_hex_text(text) {
        Err(GxtError::BadHex)
    } else if text.len() / 2 != size {
        Err(GxtError::InvalidHexSize { expected: size as usize, got: (text.len() / 2) as usize })
    } else {
        Ok(hex_bytes(text))
    }
}

/// Each digit has its place in [`digits`] as its value.
pub proof fn lemma_digit_values(n: int)
    requires
        0 <= n < 16,
    ensures
        digit_value(digits()[n]) == Some(n),
{
}

/// Hex text reads back as the bytes it was written from.
pub proof fn lemma_hex_round_trip(bytes: Seq<u8>)
    ensures
        is_hex_text(hex_text(bytes)),
        hex_text(bytes).len() == 2 * bytes.len(),
        hex_bytes(hex_text(bytes)) == bytes,
{
    let text = hex_text(bytes);
    assert forall|i: int| 0 <= i < text.len() implies (#[trigger] digit_value(text[i])) is Some by {
        let b = bytes[i / 2] as int;
        lemma_digit_values(b / 16);
        lemma_digit_values(b % 16);
    }
    assert forall|i: int| 0 <= i < bytes.len() implies hex_bytes(text)[i] == bytes[i] by {
        let b = bytes[i] as int;
        lemma_digit_values(b / 16);
        lemma_digit_values(b % 16);
        assert((2 * i) / 2 == i && (2 * i) % 2 == 0);
        assert((2 * i + 1) / 2 == i && (2 * i + 1) % 2 == 1);
        assert(text[2 * i] == digits()[b / 16]);
        assert(text[2 * i + 1] == digits()[b % 16]);
    }
    assert(hex_bytes(text) =~= bytes);
}

/// Hex text written from `size` bytes parses as those bytes.
pub proof fn lemma_parse_written(bytes: Seq<u8>)
    ensures
        parsed_hex(hex_text(bytes), bytes.len()) == Ok::<Seq<u8>, GxtError>(bytes),
{
    lemma_hex_round_trip(bytes);
}

/// Calls `hex::encode`, which writes each byte as two lower-case hex digits,
/// the high one first. Taken on trust: the text is that of [`hex_text`].
#[verifier::external_body]
pub(crate) fn hex_encode(bytes: &[u8]) -> (text: String)
    ensures
        text@ == hex_text(bytes@),
{
    hex::encode(bytes)
}

/// Calls `hex::decode`, which reads two hex digits of either case as one byte
/// and fails on an odd length or on any other character. Taken on trust: it
/// reads exactly the texts of [`is_hex_text`], as the bytes of [`hex_bytes`].
#[verifier::external_body]
pub(crate) fn hex_decode(text: &str) -> (bytes: Option<Vec<u8>>)
    ensures
        bytes is Some <==> is_hex_text(text@),
        bytes matches Some(b) ==> b@ == hex_bytes(text@),
{
    hex::decode(text).ok()
}

/// Reads `text` as hex for exactly `SIZE` bytes.
pub fn parse_hex<const SIZE: usize>(text: &str) -> (parsed: Result<[u8; SIZE], GxtError>)
    ensures
        match parsed {
            Ok(bytes) => parsed_hex(text@, SIZE as nat) == Ok::<Seq<u8>, GxtError>(bytes@),
            Err(e) => parsed_hex(text@, SIZE as nat) == Err::<Seq<u8>, GxtError>(e),
        },
{
    match hex_decode(text) {
        None => Err(GxtError::BadHex),
        Some(loose) => {
            let got = loose.len();
            if got != SIZE {
                Err(GxtError::InvalidHexSize { expected: SIZE, got })
            } else {
                let mut bytes: [u8; SIZE] = vstd::array::array_fill_for_copy_types(0u8);
                let mut i: usize = 0;
                while i < SIZE
                    invariant
                        i <= SIZE,
                        loose.len() == SIZE,
                        forall|j: int| 0 <= j < i ==> bytes@[j] == loose@[j],
                    decreases SIZE - i,
                {
                    bytes[i] = loose[i];
                    i += 1;
                }
                assert(bytes@ =~= loose@);
                Ok(bytes)
            }
        },
    }
}

} // verus!
