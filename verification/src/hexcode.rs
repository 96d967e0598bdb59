//! Decoding of hexadecimal key material, through the `hex` crate.
use vstd::prelude::*;
use vstd::string::StringSliceAdditionalSpecFns;

verus! {

/// Why a hexadecimal string could not be decoded (mirrors `hex::FromHexError`).
#[derive(Debug, Clone, Copy, PartialEq, Eq, Structural)]
pub enum HexDecodeError {
    /// A byte that is not `0-9`, `a-f` or `A-F`, and its byte position.
    InvalidHexCharacter { c: char, index: usize },
    /// The string has an odd number of bytes.
    OddLength,
    /// The decoded length does not fit a fixed-size target.
    InvalidStringLength,
}

/// The value of one hexadecimal digit byte.
pub open spec fn hex_digit_value(b: u8) -> Option<u8> {
    if 48 <= b <= 57 {
        Some((b - 48) as u8)
    } else if 65 <= b <= 70 {
        Some((b - 65 + 10) as u8)
    } else if 97 <= b <= 102 {
        Some((b - 97 + 10) as u8)
    } else {
        None
    }
}

/// The first position at or after `from` whose byte is not a hexadecimal digit.
pub open spec fn first_non_hex(b: Seq<u8>, from: int) -> Option<int>
    decreases b.len() - from,
{
    if from < 0 || from >= b.len() {
        None
    } else if hex_digit_value(b[from]) is None {
        Some(from)
    } else {
        first_non_hex(b, from + 1)
    }
}

/// The byte that the digit pair at `2 * k` encodes.
pub open spec fn hex_pair_value(b: Seq<u8>, k: int) -> u8 {
    (hex_digit_value(b[2 * k])->0 * 16 + hex_digit_value(b[2 * k + 1])->0) as u8
}

/// What `hex::decode` returns for the given bytes.
pub open spec fn hex_decode_spec(b: Seq<u8>) -> Result<Seq<u8>, HexDecodeError> {
    if b.len() % 2 != 0 {
        Err(HexDecodeError::OddLength)
    } else {
        match first_non_hex(b, 0) {
            Some(i) => Err(HexDecodeError::InvalidHexCharacter { c: b[i] as char, index: i as usize }),
            None => Ok(Seq::new(b.len() / 2, |k: int| hex_pair_value(b, k))),
        }
    }
}

/// The text that `hex::FromHexError`'s `Display` renders for an error.
pub uninterp spec fn hex_error_display(e: HexDecodeError) -> Seq<char>;

/// `hex::decode` on the UTF-8 bytes of `s`: pairs of hexadecimal digits (either
/// case) become bytes; an odd byte count, or the first byte that is not a
/// digit, is an error.  The contract restates the crate's `FromHex for Vec<u8>`.
#[verifier::external_body]
pub fn hex_decode(s: &str) -> (r: Result<Vec<u8>, HexDecodeError>)
    ensures
        match hex_decode_spec(s.spec_bytes()) {
            Ok(v) => r matches Ok(x) && x@ == v,
            Err(e) => r == Err::<Vec<u8>, HexDecodeError>(e),
        },
{
    match hex::decode(s) {
        Ok(v) => Ok(v),
        Err(hex::FromHexError::InvalidHexCharacter { c, index }) => Err(
            HexDecodeError::InvalidHexCharacter { c, index },
        ),
        Err(hex::FromHexError::OddLength) => Err(HexDecodeError::OddLength),
        Err(hex::FromHexError::InvalidStringLength) => Err(HexDecodeError::InvalidStringLength),
    }
}

/// `Display` of `hex::FromHexError`: the crate writes "Odd number of
/// digits" and "Invalid string length" for the two length errors; the text for
/// an invalid character (which quotes the character in `Debug` form and its
/// position) is left to the name `hex_error_display`.
#[verifier::external_body]
pub fn hex_error_text(e: HexDecodeError) -> (s: String)
    ensures
        s@ == hex_error_display(e),
        e is OddLength ==> s@ == "Odd number of digits"@,
        e is InvalidStringLength ==> s@ == "Invalid string length"@,
{
    let err = match e {
        HexDecodeError::InvalidHexCharacter { c, index } => hex::FromHexError::InvalidHexCharacter { c, index },
        HexDecodeError::OddLength => hex::FromHexError::OddLength,
        HexDecodeError::InvalidStringLength => hex::FromHexError::InvalidStringLength,
    };
    err.to_string()
}

} // verus!
