//! What holds of the codec and the generator together: the shape of encoded
//! words, and that a generated static value can be read back from its word.

use vstd::prelude::*;
use crate::abi::{
    address_bytes_of, encoded_args, failure_of, first_failure, first_failure_from, head_of, heads,
    int256_value, is_dynamic, lemma_array_model, payload_of, static_word, tail_of, tails,
    uint256_value, value_models, EncodeError,
};
use crate::generator::{
    address_text_of, fits, is_address_draw, is_int256_draw, is_uint256_draw, lemma_int256_draw_fits,
    lemma_uint256_draw_fits,
};
use crate::hex_text::{hex_lower, lemma_hex_roundtrip};
use crate::numerals::{all_digits, decimal, digit_char, is_digit, numeral_value, signed_decimal};
use crate::types::{SolidityValue, TypeModel, ValueModel};
use crate::wide::{signed_bound, wide_max};
use crate::words::{
    int_word, left_aligned_word, lemma_be_bytes_len, lemma_be_bytes_zero, lemma_be_roundtrip,
    lemma_pow256_values, repeated, right_aligned_word, uint_word, word_int, word_modulus, word_uint,
};

verus! {

/// A decimal numeral is made of decimal digits and reads back as its number.
pub proof fn lemma_decimal_reads_back(n: nat)
    ensures
        decimal(n).len() >= 1,
        all_digits(decimal(n), 10),
        numeral_value(decimal(n), 10) == n,
    decreases n,
{
    if n < 10 {
        let s = decimal(n);
        assert(numeral_value(s.drop_last(), 10) == 0);
    } else {
        lemma_decimal_reads_back(n / 10);
        let s = decimal(n);
        let d = (n % 10) as int;
        assert(s.drop_last() =~= decimal(n / 10));
        assert forall|i: int| 0 <= i < s.len() implies is_digit(#[trigger] s[i], 10) by {
            if i < s.len() - 1 {
                assert(s[i] == decimal(n / 10)[i]);
            } else {
                assert(s[i] == digit_char(d));
            }
        }
    }
}

/// The decimal numeral of a number of 256 bits parses as that number.
pub proof fn lemma_decimal_parses(n: nat)
    requires
        n <= wide_max(),
    ensures
        uint256_value(decimal(n)) == Some(n),
{
    lemma_decimal_reads_back(n);
    let s = decimal(n);
    assert(is_digit(s[0], 10));
    assert(s[0] != '+');
}

/// The signed decimal numeral of a number of 256 bits parses as that number.
pub proof fn lemma_signed_decimal_parses(v: int)
    requires
        -signed_bound() <= v < signed_bound(),
    ensures
        int256_value(signed_decimal(v)) == Some(v),
{
    let s = signed_decimal(v);
    if v < 0 {
        let m = (-v) as nat;
        lemma_decimal_reads_back(m);
        assert(s[0] == '-');
        assert(s.skip(1) =~= decimal(m));
    } else {
        lemma_decimal_reads_back(v as nat);
        assert(is_digit(s[0], 10));
        assert(s[0] != '+' && s[0] != '-');
    }
}

/// The word of a static value is 32 bytes long.
pub proof fn lemma_word_length(value: SolidityValue)
    ensures
        static_word(value@) matches Ok(word) ==> word.len() == 32,
{
    match value@ {
        ValueModel::Uint8(x) => lemma_be_bytes_len(x as nat, 32),
        ValueModel::Uint16(x) => lemma_be_bytes_len(x as nat, 32),
        ValueModel::Uint32(x) => lemma_be_bytes_len(x as nat, 32),
        ValueModel::Uint64(x) => lemma_be_bytes_len(x as nat, 32),
        ValueModel::Uint128(x) => lemma_be_bytes_len(x as nat, 32),
        ValueModel::Uint256(text) => {
            match uint256_value(text) {
                Some(n) => lemma_be_bytes_len(n, 32),
                None => {},
            }
        },
        ValueModel::Int8(x) => lemma_int_word_len(x as int),
        ValueModel::Int16(x) => lemma_int_word_len(x as int),
        ValueModel::Int32(x) => lemma_int_word_len(x as int),
        ValueModel::Int64(x) => lemma_int_word_len(x as int),
        ValueModel::Int128(x) => lemma_int_word_len(x as int),
        ValueModel::Int256(text) => {
            match int256_value(text) {
                Some(n) => lemma_int_word_len(n),
                None => {},
            }
        },
        ValueModel::Bool(b) => {
            lemma_be_bytes_len(0, 32);
            lemma_be_bytes_len(1, 32);
        },
        _ => {},
    }
}

proof fn lemma_int_word_len(v: int)
    ensures
        int_word(v).len() == 32,
{
    if v >= 0 {
        lemma_be_bytes_len(v as nat, 32);
    } else {
        lemma_be_bytes_len((word_modulus() + v) as nat, 32);
    }
}

/// The head word of a value is 32 bytes long, and empty where the value has
/// no encoding.
proof fn lemma_head_length(args: Seq<SolidityValue>, i: int)
    requires
        0 <= i < args.len(),
    ensures
        head_of(value_models(args), i).len() == 32 || head_of(value_models(args), i).len() == 0,
        failure_of(value_models(args)[i]) is None ==> head_of(value_models(args), i).len() == 32,
{
    let models = value_models(args);
    if is_dynamic(models[i]) {
        lemma_be_bytes_len((32 * models.len() + tails(models, i).len()) as nat, 32);
    } else {
        lemma_word_length(args[i]);
    }
}

/// Every tail is a whole number of words, and a static value has none.
pub proof fn lemma_tail_length(value: SolidityValue)
    ensures
        tail_of(value@).len() % 32 == 0,
        !is_dynamic(value@) ==> tail_of(value@).len() == 0,
    decreases value, 0nat,
{
    match value {
        SolidityValue::String(_) => {
            lemma_be_bytes_len(payload_of(value@).len(), 32);
        },
        SolidityValue::Bytes(_) => {
            lemma_be_bytes_len(payload_of(value@).len(), 32);
        },
        SolidityValue::Array(items) => {
            lemma_array_model(value, items);
            lemma_be_bytes_len(items@.len(), 32);
            lemma_sections_length(items@, items@.len() as int);
        },
        _ => {},
    }
}

/// The heads and the tails of a tuple are whole numbers of words.
pub proof fn lemma_sections_length(args: Seq<SolidityValue>, k: int)
    requires
        0 <= k <= args.len(),
    ensures
        heads(value_models(args), k).len() % 32 == 0,
        tails(value_models(args), k).len() % 32 == 0,
    decreases args, k,
{
    let models = value_models(args);
    if k > 0 {
        lemma_sections_length(args, k - 1);
        lemma_head_length(args, k - 1);
        lemma_tail_length(args[k - 1]);
    }
}

proof fn lemma_no_failure(args: Seq<ValueModel>, from: int, i: int)
    requires
        first_failure_from(args, from) is None,
        0 <= from <= i < args.len(),
    ensures
        failure_of(args[i]) is None,
    decreases i - from,
{
    if from < i {
        lemma_no_failure(args, from + 1, i);
    }
}

proof fn lemma_heads_length(args: Seq<SolidityValue>, k: int)
    requires
        first_failure(value_models(args)) is None,
        0 <= k <= args.len(),
    ensures
        heads(value_models(args), k).len() == 32 * k,
    decreases k,
{
    let models = value_models(args);
    if k > 0 {
        lemma_heads_length(args, k - 1);
        lemma_no_failure(models, 0, k - 1);
        lemma_head_length(args, k - 1);
    }
}

/// None of the values has a tail.
pub open spec fn all_static(models: Seq<ValueModel>) -> bool {
    forall|i: int| 0 <= i < models.len() ==> !is_dynamic(#[trigger] models[i])
}

proof fn lemma_no_tails(models: Seq<ValueModel>, k: int)
    requires
        0 <= k <= models.len(),
        all_static(models),
    ensures
        tails(models, k).len() == 0,
    decreases k,
{
    if k > 0 {
        lemma_no_tails(models, k - 1);
        assert(tails(models, k) == tails(models, k - 1) + tail_of(models[k - 1]));
    }
}

/// An encoded argument tuple is a whole number of 32-byte words, and exactly
/// one word for each argument where all arguments are statically sized.
pub proof fn lemma_encoding_is_whole_words(args: Seq<SolidityValue>)
    ensures
        encoded_args(value_models(args)) matches Ok(bytes) ==> {
            &&& bytes.len() % 32 == 0
            &&& all_static(value_models(args)) ==> bytes.len() == 32 * args.len()
        },
{
    let models = value_models(args);
    if first_failure(models) is None {
        lemma_heads_length(args, args.len() as int);
        lemma_sections_length(args, args.len() as int);
        if all_static(models) {
            lemma_no_tails(models, args.len() as int);
        }
    }
}

/// An unsigned 8-bit value encodes to 31 zero bytes followed by the value.
pub proof fn lemma_uint8_word(v: u8)
    ensures
        static_word(ValueModel::Uint8(v)) == Ok::<Seq<u8>, EncodeError>(repeated(0, 31).push(v)),
{
    lemma_be_bytes_zero(31);
}

/// A boolean encodes to 31 zero bytes followed by 1 for true and 0 for false.
pub proof fn lemma_bool_word(b: bool)
    ensures
        static_word(ValueModel::Bool(b)) == Ok::<Seq<u8>, EncodeError>(
            repeated(0, 31).push(
                if b {
                    1u8
                } else {
                    0u8
                },
            ),
        ),
{
    lemma_be_bytes_zero(31);
}

/// The text of an address of twenty bytes reads back as those bytes.
pub proof fn lemma_address_text_reads_back(bytes: Seq<u8>)
    requires
        bytes.len() == 20,
    ensures
        address_bytes_of(address_text_of(bytes)) == Ok::<Seq<u8>, EncodeError>(bytes),
{
    let text = address_text_of(bytes);
    lemma_hex_roundtrip(bytes);
    assert(text.subrange(0, 2) =~= seq!['0', 'x']);
    assert(text.skip(2) =~= hex_lower(bytes));
}

/// An address encodes to 12 zero bytes followed by its twenty bytes.
pub proof fn lemma_address_word(bytes: Seq<u8>)
    requires
        bytes.len() == 20,
    ensures
        static_word(ValueModel::Address(address_text_of(bytes))) == Ok::<Seq<u8>, EncodeError>(
            repeated(0, 12) + bytes,
        ),
{
    lemma_address_text_reads_back(bytes);
}

/// A type whose values take exactly one word.
pub open spec fn is_static_type(t: TypeModel) -> bool {
    !(t is String || t is Bytes || t is Array || t.is_unsupported())
}

/// The value of the static type `t` that a word holds.
pub open spec fn decoded(t: TypeModel, word: Seq<u8>) -> ValueModel {
    match t {
        TypeModel::Uint8 => ValueModel::Uint8(word_uint(word) as u8),
        TypeModel::Uint16 => ValueModel::Uint16(word_uint(word) as u16),
        TypeModel::Uint32 => ValueModel::Uint32(word_uint(word) as u32),
        TypeModel::Uint64 => ValueModel::Uint64(word_uint(word) as u64),
        TypeModel::Uint128 => ValueModel::Uint128(word_uint(word) as u128),
        TypeModel::Uint256 => ValueModel::Uint256(decimal(word_uint(word))),
        TypeModel::Int8 => ValueModel::Int8(word_int(word) as i8),
        TypeModel::Int16 => ValueModel::Int16(word_int(word) as i16),
        TypeModel::Int32 => ValueModel::Int32(word_int(word) as i32),
        TypeModel::Int64 => ValueModel::Int64(word_int(word) as i64),
        TypeModel::Int128 => ValueModel::Int128(word_int(word) as i128),
        TypeModel::Int256 => ValueModel::Int256(signed_decimal(word_int(word))),
        TypeModel::Address => ValueModel::Address(address_text_of(word.subrange(12, 32))),
        TypeModel::Bool => ValueModel::Bool(word_uint(word) != 0),
        TypeModel::Bytes1 => ValueModel::Bytes1(word.subrange(0, 1)),
        TypeModel::Bytes2 => ValueModel::Bytes2(word.subrange(0, 2)),
        TypeModel::Bytes4 => ValueModel::Bytes4(word.subrange(0, 4)),
        TypeModel::Bytes8 => ValueModel::Bytes8(word.subrange(0, 8)),
        TypeModel::Bytes16 => ValueModel::Bytes16(word.subrange(0, 16)),
        TypeModel::Bytes32 => ValueModel::Bytes32(word.subrange(0, 32)),
        _ => ValueModel::Unsupported,
    }
}

/// The word of an unsigned integer below two to the 256 holds that integer.
pub proof fn lemma_uint_word_reads_back(v: nat)
    requires
        v < word_modulus(),
    ensures
        word_uint(uint_word(v)) == v,
{
    lemma_pow256_values();
    lemma_be_roundtrip(v, 32);
}

/// The word of a signed integer of 256 bits holds that integer.
pub proof fn lemma_int_word_reads_back(v: int)
    requires
        -(word_modulus() / 2) <= v < word_modulus() / 2,
    ensures
        word_int(int_word(v)) == v,
{
    lemma_pow256_values();
    if v >= 0 {
        lemma_be_roundtrip(v as nat, 32);
    } else {
        lemma_be_roundtrip((word_modulus() + v) as nat, 32);
    }
}

/// A value that the generator can give for a static type is read back from
/// its word unchanged.
pub proof fn lemma_generated_value_reads_back(v: ValueModel, t: TypeModel)
    requires
        fits(v, t),
        is_static_type(t),
    ensures
        static_word(v) matches Ok(word) && decoded(t, word) == v,
{
    match v {
        ValueModel::Uint8(x) => lemma_uint_word_reads_back(x as nat),
        ValueModel::Uint16(x) => lemma_uint_word_reads_back(x as nat),
        ValueModel::Uint32(x) => lemma_uint_word_reads_back(x as nat),
        ValueModel::Uint64(x) => lemma_uint_word_reads_back(x as nat),
        ValueModel::Uint128(x) => lemma_uint_word_reads_back(x as nat),
        ValueModel::Uint256(text) => {
            let n = choose|n: nat| is_uint256_draw(n) && text == #[trigger] decimal(n);
            lemma_uint256_draw_fits(n);
            lemma_decimal_parses(n);
            lemma_uint_word_reads_back(n);
        },
        ValueModel::Int8(x) => lemma_int_word_reads_back(x as int),
        ValueModel::Int16(x) => lemma_int_word_reads_back(x as int),
        ValueModel::Int32(x) => lemma_int_word_reads_back(x as int),
        ValueModel::Int64(x) => lemma_int_word_reads_back(x as int),
        ValueModel::Int128(x) => lemma_int_word_reads_back(x as int),
        ValueModel::Int256(text) => {
            let n = choose|n: int| is_int256_draw(n) && text == #[trigger] signed_decimal(n);
            lemma_int256_draw_fits(n);
            lemma_signed_decimal_parses(n);
            lemma_int_word_reads_back(n);
        },
        ValueModel::Address(text) => {
            let bytes = choose|bytes: Seq<u8>|
                is_address_draw(bytes) && text == #[trigger] address_text_of(bytes);
            lemma_address_text_reads_back(bytes);
            assert(right_aligned_word(bytes).subrange(12, 32) =~= bytes);
        },
        ValueModel::Bool(b) => {
            lemma_uint_word_reads_back(0);
            lemma_uint_word_reads_back(1);
        },
        ValueModel::Bytes1(b) => {
            assert(left_aligned_word(b).subrange(0, 1) =~= b);
        },
        ValueModel::Bytes2(b) => {
            assert(left_aligned_word(b).subrange(0, 2) =~= b);
        },
        ValueModel::Bytes4(b) => {
            assert(left_aligned_word(b).subrange(0, 4) =~= b);
        },
        ValueModel::Bytes8(b) => {
            assert(left_aligned_word(b).subrange(0, 8) =~= b);
        },
        ValueModel::Bytes16(b) => {
            assert(left_aligned_word(b).subrange(0, 16) =~= b);
        },
        ValueModel::Bytes32(b) => {
            assert(left_aligned_word(b).subrange(0, 32) =~= b);
        },
        _ => {},
    }
}

} // verus!
