//! The ABI codec: method selectors, canonical signatures, and the encoding of
//! an argument tuple into the binary calling convention.
//!
//! Statically sized values take one 32-byte word in the head. Texts and byte
//! vectors take an offset word in the head and, in the tail, a length word
//! followed by the data padded with zeros to whole words. An array takes an
//! offset word in the head and, in the tail, the word of its length followed
//! by its items encoded as a tuple. Structs are not encoded.

use vstd::prelude::*;
use vstd::slice::slice_to_vec;
use vstd::utf8::encode_utf8;
use crate::digest::{keccak256, keccak256_digest};
use crate::hex_text::{decode_hex, hex_bytes, is_hex_text};
use crate::numerals::{parse_signed, parse_unsigned};
use crate::text::{append_str, chars_of, slice_of, starts_with, starts_with_str, string_of};
use crate::types::{SolidityValue, ValueModel};
use crate::wide::{encode_wide, read_signed_wide, read_wide, signed_bound, wide_max};
use crate::words::{
    append_bytes, encode_int, encode_uint, fill, int_word, left_aligned_word, padded_to_words,
    right_aligned_word, uint_word,
};

verus! {

broadcast use {vstd::seq::group_seq_axioms, vstd::std_specs::vec::group_vec_axioms};

/// Why an argument could not be encoded.
#[derive(Debug, Clone, Copy, PartialEq, Eq, Structural)]
pub enum EncodeError {
    /// The text of an address is not hexadecimal.
    InvalidAddress,
    /// The text of an address does not stand for twenty bytes.
    InvalidAddressLength,
    /// The text of a 256-bit integer is no decimal numeral, or stands for a
    /// number that does not fit.
    InvalidInteger,
    /// The value's variant has no encoding.
    UnsupportedType,
}

/// The views of the values in `values`, in order.
pub open spec fn value_models(values: Seq<SolidityValue>) -> Seq<ValueModel> {
    Seq::new(values.len(), |i: int| values[i]@)
}

/// The canonical name of the type of a value, as it stands in a signature.
/// An array is always named `uint256[]`, whatever its elements are.
pub open spec fn type_name_of(v: ValueModel) -> Seq<char> {
    match v {
        ValueModel::Uint8(_) => "uint8"@,
        ValueModel::Uint16(_) => "uint16"@,
        ValueModel::Uint32(_) => "uint32"@,
        ValueModel::Uint64(_) => "uint64"@,
        ValueModel::Uint128(_) => "uint128"@,
        ValueModel::Uint256(_) => "uint256"@,
        ValueModel::Int8(_) => "int8"@,
        ValueModel::Int16(_) => "int16"@,
        ValueModel::Int32(_) => "int32"@,
        ValueModel::Int64(_) => "int64"@,
        ValueModel::Int128(_) => "int128"@,
        ValueModel::Int256(_) => "int256"@,
        ValueModel::Address(_) => "address"@,
        ValueModel::Bool(_) => "bool"@,
        ValueModel::Bytes1(_) => "bytes1"@,
        ValueModel::Bytes2(_) => "bytes2"@,
        ValueModel::Bytes4(_) => "bytes4"@,
        ValueModel::Bytes8(_) => "bytes8"@,
        ValueModel::Bytes16(_) => "bytes16"@,
        ValueModel::Bytes32(_) => "bytes32"@,
        ValueModel::String(_) => "string"@,
        ValueModel::Bytes(_) => "bytes"@,
        ValueModel::Array(_) => "uint256[]"@,
        ValueModel::Struct(_) => "tuple"@,
        ValueModel::Unsupported => "unsupported"@,
    }
}

/// The canonical name of the type of `value`.
pub fn solidity_value_to_type_string(value: &SolidityValue) -> (r: &'static str)
    ensures
        r@ == type_name_of(value@),
{
    match value {
        SolidityValue::Uint8(_) => "uint8",
        SolidityValue::Uint16(_) => "uint16",
        SolidityValue::Uint32(_) => "uint32",
        SolidityValue::Uint64(_) => "uint64",
        SolidityValue::Uint128(_) => "uint128",
        SolidityValue::Uint256(_) => "uint256",
        SolidityValue::Int8(_) => "int8",
        SolidityValue::Int16(_) => "int16",
        SolidityValue::Int32(_) => "int32",
        SolidityValue::Int64(_) => "int64",
        SolidityValue::Int128(_) => "int128",
        SolidityValue::Int256(_) => "int256",
        SolidityValue::Address(_) => "address",
        SolidityValue::Bool(_) => "bool",
        SolidityValue::Bytes1(_) => "bytes1",
        SolidityValue::Bytes2(_) => "bytes2",
        SolidityValue::Bytes4(_) => "bytes4",
        SolidityValue::Bytes8(_) => "bytes8",
        SolidityValue::Bytes16(_) => "bytes16",
        SolidityValue::Bytes32(_) => "bytes32",
        SolidityValue::String(_) => "string",
        SolidityValue::Bytes(_) => "bytes",
        SolidityValue::Array(_) => "uint256[]",
        SolidityValue::Struct(_) => "tuple",
        SolidityValue::Unsupported => "unsupported",
    }
}

/// The type names of the first `k` values, with a comma between neighbours.
pub open spec fn type_list(args: Seq<ValueModel>, k: int) -> Seq<char>
    decreases k,
{
    if k <= 0 {
        Seq::empty()
    } else if k == 1 {
        type_name_of(args[0])
    } else {
        type_list(args, k - 1) + seq![','] + type_name_of(args[k - 1])
    }
}

/// The canonical signature of a call: the method's name, then the type names
/// of the arguments in parentheses.
pub open spec fn signature_of(name: Seq<char>, args: Seq<ValueModel>) -> Seq<char> {
    name + seq!['('] + type_list(args, args.len() as int) + seq![')']
}

/// Builds the canonical signature of a call of `method_name` with `args`.
pub fn build_method_signature(method_name: &str, args: &Vec<SolidityValue>) -> (r: String)
    ensures
        r@ == signature_of(method_name@, value_models(args@)),
{
    let ghost models = value_models(args@);
    let mut out = chars_of(method_name);
    out.push('(');
    let mut i: usize = 0;
    while i < args.len()
        invariant
            i <= args.len(),
            models == value_models(args@),
            out@ == method_name@ + seq!['('] + type_list(models, i as int),
        decreases args.len() - i,
    {
        if i > 0 {
            out.push(',');
        }
        append_str(&mut out, solidity_value_to_type_string(&args[i]));
        i += 1;
    }
    out.push(')');
    string_of(&out)
}

/// The selector that a hash gives: its first four bytes.
pub fn selector_of_digest(digest: &Vec<u8>) -> (r: [u8; 4])
    requires
        digest.len() >= 4,
    ensures
        r@ == digest@.subrange(0, 4),
{
    let r = [digest[0], digest[1], digest[2], digest[3]];
    r
}

/// The selector of a method: the first four bytes of the Keccak-256 hash of
/// the UTF-8 bytes of its canonical signature.
pub open spec fn selector_of(signature: Seq<char>) -> Seq<u8> {
    keccak256(encode_utf8(signature)).subrange(0, 4)
}

/// Computes the selector of the method with the canonical signature
/// `signature`.
pub fn calculate_selector(signature: &str) -> (r: [u8; 4])
    ensures
        r@ == selector_of(signature@),
{
    let digest = keccak256_digest(signature.as_bytes());
    selector_of_digest(&digest)
}

/// The number that the text of a `Uint256` stands for: its decimal value
/// where it is a decimal numeral below two to the 256.
pub open spec fn uint256_value(text: Seq<char>) -> Option<nat> {
    parse_unsigned(text, 10, wide_max())
}

/// The number that the text of an `Int256` stands for: its decimal value
/// where it is a signed decimal numeral of 256 bits.
pub open spec fn int256_value(text: Seq<char>) -> Option<int> {
    parse_signed(text, -signed_bound(), signed_bound() - 1)
}

/// The hexadecimal digits of an address text: the text without a leading
/// `0x`.
pub open spec fn address_digits(text: Seq<char>) -> Seq<char> {
    if starts_with(text, seq!['0', 'x']) {
        text.skip(2)
    } else {
        text
    }
}

/// The twenty bytes of an address text, or why it has none.
pub open spec fn address_bytes_of(text: Seq<char>) -> Result<Seq<u8>, EncodeError> {
    let digits = address_digits(text);
    if !is_hex_text(digits) {
        Err(EncodeError::InvalidAddress)
    } else if hex_bytes(digits).len() != 20 {
        Err(EncodeError::InvalidAddressLength)
    } else {
        Ok(hex_bytes(digits))
    }
}

/// A value whose encoding has a tail: a text, a byte vector or an array.
pub open spec fn is_dynamic(v: ValueModel) -> bool {
    v is String || v is Bytes || v is Array
}

/// The word of a statically sized value, or why it has none.
///
/// Unsigned integers are big-endian and right-aligned, signed integers are
/// in two's complement over the whole word, a 256-bit integer is the number
/// that its decimal text stands for, a boolean is the integer 0 or 1,
/// an address fills the low twenty bytes, and a fixed-width byte string is
/// left-aligned.
pub open spec fn static_word(v: ValueModel) -> Result<Seq<u8>, EncodeError> {
    match v {
        ValueModel::Uint8(x) => Ok(uint_word(x as nat)),
        ValueModel::Uint16(x) => Ok(uint_word(x as nat)),
        ValueModel::Uint32(x) => Ok(uint_word(x as nat)),
        ValueModel::Uint64(x) => Ok(uint_word(x as nat)),
        ValueModel::Uint128(x) => Ok(uint_word(x as nat)),
        ValueModel::Uint256(text) => match uint256_value(text) {
            Some(n) => Ok(uint_word(n)),
            None => Err(EncodeError::InvalidInteger),
        },
        ValueModel::Int8(x) => Ok(int_word(x as int)),
        ValueModel::Int16(x) => Ok(int_word(x as int)),
        ValueModel::Int32(x) => Ok(int_word(x as int)),
        ValueModel::Int64(x) => Ok(int_word(x as int)),
        ValueModel::Int128(x) => Ok(int_word(x as int)),
        ValueModel::Int256(text) => match int256_value(text) {
            Some(v) => Ok(int_word(v)),
            None => Err(EncodeError::InvalidInteger),
        },
        ValueModel::Address(text) => match address_bytes_of(text) {
            Ok(bytes) => Ok(right_aligned_word(bytes)),
            Err(e) => Err(e),
        },
        ValueModel::Bool(b) => Ok(
            uint_word(
                if b {
                    1
                } else {
                    0
                },
            ),
        ),
        ValueModel::Bytes1(b) => Ok(left_aligned_word(b)),
        ValueModel::Bytes2(b) => Ok(left_aligned_word(b)),
        ValueModel::Bytes4(b) => Ok(left_aligned_word(b)),
        ValueModel::Bytes8(b) => Ok(left_aligned_word(b)),
        ValueModel::Bytes16(b) => Ok(left_aligned_word(b)),
        ValueModel::Bytes32(b) => Ok(left_aligned_word(b)),
        _ => Err(EncodeError::UnsupportedType),
    }
}

/// The data of a text or a byte vector: the UTF-8 bytes of the text, the
/// bytes of the vector.
pub open spec fn payload_of(v: ValueModel) -> Seq<u8> {
    match v {
        ValueModel::String(text) => encode_utf8(text),
        ValueModel::Bytes(bytes) => bytes,
        _ => Seq::empty(),
    }
}

/// What a value adds to the tail: nothing for a static value; for a text or
/// a byte vector the length word followed by the data padded to whole words;
/// and for an array the word of its length followed by its items encoded as
/// a tuple.
pub open spec fn tail_of(v: ValueModel) -> Seq<u8>
    decreases v, 0nat, 0nat,
{
    match v {
        ValueModel::String(_) => uint_word(payload_of(v).len()) + padded_to_words(payload_of(v)),
        ValueModel::Bytes(_) => uint_word(payload_of(v).len()) + padded_to_words(payload_of(v)),
        ValueModel::Array(items) => uint_word(items.len()) + (heads(items, items.len() as int)
            + tails(items, items.len() as int)),
        _ => Seq::empty(),
    }
}

/// The tails of the first `k` values, in order.
pub open spec fn tails(args: Seq<ValueModel>, k: int) -> Seq<u8>
    decreases args, k, 0nat,
{
    if k <= 0 || k > args.len() {
        Seq::empty()
    } else {
        tails(args, k - 1) + tail_of(args[k - 1])
    }
}

/// The head word of the value at index `i`: its own word where it is static,
/// and where it is dynamic the offset of its tail from the start of the
/// tuple's encoding, which is the size of the head plus the tails before it.
pub open spec fn head_of(args: Seq<ValueModel>, i: int) -> Seq<u8>
    decreases args, i, 1nat,
{
    if i < 0 || i >= args.len() {
        Seq::empty()
    } else if is_dynamic(args[i]) {
        uint_word((32 * args.len() + tails(args, i).len()) as nat)
    } else {
        match static_word(args[i]) {
            Ok(word) => word,
            Err(_) => Seq::empty(),
        }
    }
}

/// The head words of the first `k` values, in order.
pub open spec fn heads(args: Seq<ValueModel>, k: int) -> Seq<u8>
    decreases args, k, 2nat,
{
    if k <= 0 || k > args.len() {
        Seq::empty()
    } else {
        heads(args, k - 1) + head_of(args, k - 1)
    }
}

/// Why a value cannot be encoded, if it cannot: a static value for the
/// reason that it has no word, an array for the reason of its first item
/// that cannot be encoded.
pub open spec fn failure_of(v: ValueModel) -> Option<EncodeError>
    decreases v, 0nat,
{
    match v {
        ValueModel::String(_) => None,
        ValueModel::Bytes(_) => None,
        ValueModel::Array(items) => first_failure_from(items, 0),
        _ => match static_word(v) {
            Ok(_) => None,
            Err(e) => Some(e),
        },
    }
}

/// The failure of the first value at or after the index `from` that cannot
/// be encoded.
pub open spec fn first_failure_from(args: Seq<ValueModel>, from: int) -> Option<EncodeError>
    decreases args, args.len() - from,
{
    if from < 0 || from >= args.len() {
        None
    } else {
        match failure_of(args[from]) {
            Some(e) => Some(e),
            None => first_failure_from(args, from + 1),
        }
    }
}

/// The failure of the first value that cannot be encoded.
pub open spec fn first_failure(args: Seq<ValueModel>) -> Option<EncodeError> {
    first_failure_from(args, 0)
}

/// The encoding of an argument tuple: all heads, then all tails; or the
/// failure of the first value that cannot be encoded.
pub open spec fn encoded_args(args: Seq<ValueModel>) -> Result<Seq<u8>, EncodeError> {
    match first_failure(args) {
        Some(e) => Err(e),
        None => Ok(heads(args, args.len() as int) + tails(args, args.len() as int)),
    }
}

/// The bytes of `bytes`, left-aligned in a word.
fn left_align(bytes: &[u8]) -> (r: Vec<u8>)
    requires
        bytes@.len() <= 32,
    ensures
        r@ == left_aligned_word(bytes@),
{
    let mut out = slice_to_vec(bytes);
    let zeros = fill(0, 32 - bytes.len());
    append_bytes(&mut out, &zeros);
    out
}

/// The twenty bytes of an address text.
pub fn address_bytes(text: &str) -> (r: Result<Vec<u8>, EncodeError>)
    ensures
        match r {
            Ok(bytes) => address_bytes_of(text@) == Ok::<Seq<u8>, EncodeError>(bytes@),
            Err(e) => address_bytes_of(text@) == Err::<Seq<u8>, EncodeError>(e),
        },
{
    let chars = chars_of(text);
    proof {
        reveal_strlit("0x");
        assert("0x"@ =~= seq!['0', 'x']);
    }
    let digits = if starts_with_str(&chars, "0x") {
        slice_of(&chars, 2, chars.len())
    } else {
        chars
    };
    let digits_text = string_of(&digits);
    match decode_hex(digits_text.as_str()) {
        Ok(bytes) => {
            if bytes.len() == 20 {
                Ok(bytes)
            } else {
                Err(EncodeError::InvalidAddressLength)
            }
        },
        Err(_) => Err(EncodeError::InvalidAddress),
    }
}

/// The word of a statically sized value.
pub fn encode_static(value: &SolidityValue) -> (r: Result<Vec<u8>, EncodeError>)
    ensures
        match r {
            Ok(word) => static_word(value@) == Ok::<Seq<u8>, EncodeError>(word@),
            Err(e) => static_word(value@) == Err::<Seq<u8>, EncodeError>(e),
        },
{
    match value {
        SolidityValue::Uint8(x) => Ok(encode_uint(*x as u128)),
        SolidityValue::Uint16(x) => Ok(encode_uint(*x as u128)),
        SolidityValue::Uint32(x) => Ok(encode_uint(*x as u128)),
        SolidityValue::Uint64(x) => Ok(encode_uint(*x as u128)),
        SolidityValue::Uint128(x) => Ok(encode_uint(*x)),
        SolidityValue::Uint256(text) => {
            match read_wide(&chars_of(text.as_str())) {
                Some(n) => Ok(encode_wide(n)),
                None => Err(EncodeError::InvalidInteger),
            }
        },
        SolidityValue::Int8(x) => Ok(encode_int(*x as i128)),
        SolidityValue::Int16(x) => Ok(encode_int(*x as i128)),
        SolidityValue::Int32(x) => Ok(encode_int(*x as i128)),
        SolidityValue::Int64(x) => Ok(encode_int(*x as i128)),
        SolidityValue::Int128(x) => Ok(encode_int(*x)),
        SolidityValue::Int256(text) => {
            match read_signed_wide(&chars_of(text.as_str())) {
                Some(n) => Ok(encode_wide(n)),
                None => Err(EncodeError::InvalidInteger),
            }
        },
        SolidityValue::Address(text) => {
            match address_bytes(text.as_str()) {
                Ok(bytes) => {
                    let mut out = fill(0, 12);
                    append_bytes(&mut out, &bytes);
                    Ok(out)
                },
                Err(e) => Err(e),
            }
        },
        SolidityValue::Bool(b) => Ok(
            encode_uint(
                if *b {
                    1
                } else {
                    0
                },
            ),
        ),
        SolidityValue::Bytes1(b) => Ok(left_align(b)),
        SolidityValue::Bytes2(b) => Ok(left_align(b)),
        SolidityValue::Bytes4(b) => Ok(left_align(b)),
        SolidityValue::Bytes8(b) => Ok(left_align(b)),
        SolidityValue::Bytes16(b) => Ok(left_align(b)),
        SolidityValue::Bytes32(b) => Ok(left_align(b)),
        _ => Err(EncodeError::UnsupportedType),
    }
}

/// The tail of a dynamic value with the data `payload`.
fn encode_tail(payload: &Vec<u8>) -> (r: Vec<u8>)
    ensures
        r@ == uint_word(payload@.len()) + padded_to_words(payload@),
{
    let mut out = encode_uint(payload.len() as u128);
    append_bytes(&mut out, payload);
    let zeros = fill(0, (32 - payload.len() % 32) % 32);
    append_bytes(&mut out, &zeros);
    out
}

/// The model of an array is the array of the models of its items.
pub proof fn lemma_array_model(value: SolidityValue, items: Vec<SolidityValue>)
    requires
        value == SolidityValue::Array(items),
    ensures
        value@ == ValueModel::Array(value_models(items@)),
{
    assert(value@->Array_0 =~= value_models(items@));
}

/// Encodes an argument tuple.
///
/// The result is the encoding that [`encoded_args`] describes; where a value
/// cannot be encoded, the failure of the first such value is returned.
pub fn encode_abi_args(args: &Vec<SolidityValue>) -> (r: Result<Vec<u8>, EncodeError>)
    ensures
        match r {
            Ok(bytes) => encoded_args(value_models(args@)) == Ok::<Seq<u8>, EncodeError>(bytes@),
            Err(e) => encoded_args(value_models(args@)) == Err::<Seq<u8>, EncodeError>(e),
        },
    decreases args,
{
    let ghost models = value_models(args@);
    let n = args.len();
    let mut head: Vec<u8> = Vec::new();
    let mut tail: Vec<u8> = Vec::new();
    let mut i: usize = 0;
    while i < n
        invariant
            i <= n == args.len(),
            models == value_models(args@),
            first_failure(models) == first_failure_from(models, i as int),
            head@ == heads(models, i as int),
            tail@ == tails(models, i as int),
        decreases n - i,
    {
        let value = &args[i];
        assert(heads(models, i + 1) == heads(models, i as int) + head_of(models, i as int));
        assert(tails(models, i + 1) == tails(models, i as int) + tail_of(models[i as int]));
        match value {
            SolidityValue::String(text) => {
                let offset = (32 * (n as u128)) + (tail.len() as u128);
                let word = encode_uint(offset);
                append_bytes(&mut head, &word);
                let payload = slice_to_vec(text.as_str().as_bytes());
                let piece = encode_tail(&payload);
                append_bytes(&mut tail, &piece);
            },
            SolidityValue::Bytes(bytes) => {
                let offset = (32 * (n as u128)) + (tail.len() as u128);
                let word = encode_uint(offset);
                append_bytes(&mut head, &word);
                let piece = encode_tail(bytes);
                append_bytes(&mut tail, &piece);
            },
            SolidityValue::Array(items) => {
                proof {
                    lemma_array_model(*value, *items);
                }
                let offset = (32 * (n as u128)) + (tail.len() as u128);
                let word = encode_uint(offset);
                append_bytes(&mut head, &word);
                match encode_abi_args(items) {
                    Ok(body) => {
                        let mut piece = encode_uint(items.len() as u128);
                        append_bytes(&mut piece, &body);
                        append_bytes(&mut tail, &piece);
                    },
                    Err(e) => {
                        assert(failure_of(models[i as int]) == Some(e));
                        return Err(e);
                    },
                }
            },
            _ => {
                match encode_static(value) {
                    Ok(word) => {
                        append_bytes(&mut head, &word);
                    },
                    Err(e) => {
                        return Err(e);
                    },
                }
            },
        }
        i += 1;
    }
    append_bytes(&mut head, &tail);
    Ok(head)
}

} // verus!
