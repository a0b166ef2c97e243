//! Hexadecimal text for byte strings, written and read by the `hex` crate.
//! The two conversions are trusted; what they compute is stated here in full.

use vstd::prelude::*;
use crate::numerals::{all_digits, digit_char, digit_value};

verus! {

/// The lower-case hexadecimal text of `bytes`: two digits for each byte, the
/// high half first.
pub open spec fn hex_lower(bytes: Seq<u8>) -> Seq<char> {
    Seq::new(
        2 * bytes.len(),
        |i: int|
            if i % 2 == 0 {
                digit_char(bytes[i / 2] as int / 16)
            } else {
                digit_char(bytes[i / 2] as int % 16)
            },
    )
}

/// `s` is hexadecimal text for a byte string: an even number of hexadecimal
/// digits of either case.
pub open spec fn is_hex_text(s: Seq<char>) -> bool {
    s.len() % 2 == 0 && all_digits(s, 16)
}

/// The bytes that the hexadecimal text `s` stands for.
pub open spec fn hex_bytes(s: Seq<char>) -> Seq<u8> {
    Seq::new(
        s.len() / 2,
        |i: int|
            (digit_value(s[2 * i]).unwrap_or(0) * 16 + digit_value(s[2 * i + 1]).unwrap_or(
                0,
            )) as u8,
    )
}

/// The error of `hex::decode`, `hex::FromHexError`, kept as an opaque type.
#[verifier::external_type_specification]
#[verifier::external_body]
pub struct ExFromHexError(hex::FromHexError);

/// `hex::encode`: two lower-case digits for each byte, in order.
#[verifier::external_body]
pub(crate) fn encode_hex(bytes: &Vec<u8>) -> (r: String)
    ensures
        r@ == hex_lower(bytes@),
{
    hex::encode(bytes)
}

/// `hex::decode`: succeeds exactly on an even number of hexadecimal digits
/// (either case, and nothing else), and then gives one byte for each pair.
#[verifier::external_body]
pub(crate) fn decode_hex(s: &str) -> (r: Result<Vec<u8>, hex::FromHexError>)
    ensures
        r is Ok <==> is_hex_text(s@),
        r matches Ok(bytes) ==> bytes@ == hex_bytes(s@),
{
    hex::decode(s)
}

/// Reading back what was written gives the bytes again.
pub proof fn lemma_hex_roundtrip(bytes: Seq<u8>)
    ensures
        is_hex_text(hex_lower(bytes)),
        hex_bytes(hex_lower(bytes)) == bytes,
{
    let s = hex_lower(bytes);
    assert forall|i: int| 0 <= i < s.len() implies crate::numerals::is_digit(
        #[trigger] s[i],
        16,
    ) by {
        let b = bytes[i / 2] as int;
        lemma_digit_roundtrip(b / 16);
        lemma_digit_roundtrip(b % 16);
    }
    assert forall|k: int| 0 <= k < bytes.len() implies hex_bytes(s)[k] == bytes[k] by {
        let b = bytes[k] as int;
        lemma_digit_roundtrip(b / 16);
        lemma_digit_roundtrip(b % 16);
    }
}

/// The digit character of `d` reads back as `d`.
pub proof fn lemma_digit_roundtrip(d: int)
    requires
        0 <= d < 16,
    ensures
        digit_value(digit_char(d)) == Some(d as nat),
{
}

} // verus!
