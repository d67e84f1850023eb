//! Hexadecimal text.

use vstd::prelude::*;

verus! {

/// Why a text is not the hexadecimal spelling of some bytes.
#[derive(Debug, Clone, Copy, PartialEq, Eq)]
pub enum HexError {
    /// The byte at `index`, shown as a character, is no hexadecimal digit.
    InvalidHexCharacter { c: char, index: usize },
    /// The number of digits is odd.
    OddLength,
    /// The text is too long or too short for the buffer that it was decoded into.
    InvalidStringLength,
}

/// Whether `c` is a hexadecimal digit, in upper or lower case.
pub open spec fn is_hex_digit(c: u8) -> bool {
    ||| 0x30 <= c <= 0x39
    ||| 0x41 <= c <= 0x46
    ||| 0x61 <= c <= 0x66
}

/// The value of the hexadecimal digit `c`.
pub open spec fn hex_digit_value(c: u8) -> int
    recommends
        is_hex_digit(c),
{
    if c <= 0x39 {
        c - 0x30
    } else if c <= 0x46 {
        c - 0x41 + 10
    } else {
        c - 0x61 + 10
    }
}

/// Whether `text` consists of pairs of hexadecimal digits.
pub open spec fn is_hex(text: Seq<u8>) -> bool {
    &&& text.len() % 2 == 0
    &&& forall|i: int| 0 <= i < text.len() ==> is_hex_digit(#[trigger] text[i])
}

/// The bytes that a text of pairs of hexadecimal digits spells, one byte to a pair.
pub open spec fn hex_bytes(text: Seq<u8>) -> Seq<u8>
    recommends
        is_hex(text),
{
    Seq::new(
        text.len() / 2,
        |i: int| (16 * hex_digit_value(text[2 * i]) + hex_digit_value(text[2 * i + 1])) as u8,
    )
}

/// The failure to decode `text`: an odd length comes before a character that is no
/// digit, and of those the first is reported.
pub open spec fn is_hex_failure(text: Seq<u8>, error: HexError) -> bool {
    if text.len() % 2 != 0 {
        error == HexError::OddLength
    } else {
        match error {
            HexError::InvalidHexCharacter { c, index } => {
                &&& index < text.len()
                &&& !is_hex_digit(text[index as int])
                &&& c == text[index as int] as char
                &&& forall|i: int| 0 <= i < index ==> is_hex_digit(#[trigger] text[i])
            },
            _ => false,
        }
    }
}

/// Calls `hex::decode`: it decodes texts made of pairs of digits of either case, and
/// otherwise reports an odd length or the first byte that is no digit.
#[verifier::external_body]
pub(crate) fn hex_decode(text: &[u8]) -> (decoded: Result<Vec<u8>, HexError>)
    ensures
        match decoded {
            Ok(bytes) => is_hex(text@) && bytes@ == hex_bytes(text@),
            Err(error) => !is_hex(text@) && is_hex_failure(text@, error),
        },
{
    match hex::decode(text) {
        Ok(bytes) => Ok(bytes),
        Err(hex::FromHexError::InvalidHexCharacter { c, index }) => Err(
            HexError::InvalidHexCharacter { c, index },
        ),
        Err(hex::FromHexError::OddLength) => Err(HexError::OddLength),
        Err(hex::FromHexError::InvalidStringLength) => Err(HexError::InvalidStringLength),
    }
}

} // verus!
