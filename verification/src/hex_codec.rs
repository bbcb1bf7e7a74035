//! Hexadecimal coding of protocol blobs.
//!
//! The remote node hands blobs out and takes the submission payload back
//! as hexadecimal text. Decoding and encoding are done by the `hex`
//! crate; the specification functions here state exactly what those
//! calls return, and everything built on them is proved against that.

use vstd::prelude::*;

verus! {

use crate::errors::HexError;

/// True of ASCII bytes that are hexadecimal digits.
pub open spec fn is_hex_byte(b: u8) -> bool {
    (48 <= b <= 57) || (97 <= b <= 102) || (65 <= b <= 70)
}

/// Numeric value of an ASCII hexadecimal digit.
pub open spec fn hex_byte_val(b: u8) -> int {
    if 48 <= b <= 57 {
        b - 48
    } else if 97 <= b <= 102 {
        b - 87
    } else {
        b - 55
    }
}

/// True when `s` is a well-formed hexadecimal blob: even length, every
/// byte an ASCII hexadecimal digit.
pub open spec fn hex_valid(s: Seq<u8>) -> bool {
    s.len() % 2 == 0 && (forall|i: int| 0 <= i < s.len() ==> is_hex_byte(#[trigger] s[i]))
}

/// The bytes a well-formed hexadecimal blob denotes: each output byte is
/// the value of a pair of digits, high nibble first.
pub open spec fn hex_decoded(s: Seq<u8>) -> Seq<u8> {
    Seq::new(
        (s.len() / 2) as nat,
        |i: int| (hex_byte_val(s[2 * i]) * 16 + hex_byte_val(s[2 * i + 1])) as u8,
    )
}

/// Lowercase ASCII hexadecimal digit for a nibble value.
pub open spec fn nibble_char(v: int) -> char {
    if v < 10 {
        ((48 + v) as u8) as char
    } else {
        ((87 + v) as u8) as char
    }
}

/// The lowercase hexadecimal encoding of bytes, high nibble first.
pub open spec fn hex_encoded(b: Seq<u8>) -> Seq<char> {
    Seq::new(
        b.len() * 2,
        |i: int|
            if i % 2 == 0 {
                nibble_char((b[i / 2] / 16) as int)
            } else {
                nibble_char((b[i / 2] % 16) as int)
            },
    )
}

/// Relies on hex::decode: a blob decodes exactly when its length is even
/// and every byte is an ASCII hexadecimal digit (either case); each
/// output byte is the value of a pair of digits, high nibble first. An
/// odd length is reported before the digits are inspected.
#[verifier::external_body]
pub(crate) fn hex_decode(s: &Vec<u8>) -> (r: Result<Vec<u8>, HexError>)
    ensures
        (r is Ok) == hex_valid(s@),
        r is Ok ==> r.unwrap()@ == hex_decoded(s@),
        r matches Err(e) ==> ((e == HexError::OddLength) <==> s@.len() % 2 != 0),
        r matches Err(HexError::InvalidHexByte { index }) ==> index < s@.len()
            && !is_hex_byte(s@[index as int]),
{
    hex::decode(s).map_err(|e| match e {
        hex::FromHexError::InvalidHexCharacter { c: _, index } => HexError::InvalidHexByte { index },
        hex::FromHexError::OddLength => HexError::OddLength,
        hex::FromHexError::InvalidStringLength => HexError::OddLength,
    })
}

/// Relies on hex::encode: two lowercase hexadecimal digits for each
/// byte, high nibble first.
#[verifier::external_body]
pub(crate) fn hex_encode(b: &Vec<u8>) -> (r: String)
    ensures
        r@ == hex_encoded(b@),
{
    hex::encode(b)
}

} // verus!
