//! Compact text for arguments, as they stand in the line that reports a
//! failed iteration.

use vstd::prelude::*;
use crate::hex_text::{encode_hex, hex_lower};
use crate::numerals::{decimal, signed_decimal, write_decimal, write_signed_decimal};
use crate::text::{append_chars, append_str, chars_of, slice_of, string_of};
use crate::types::{SolidityValue, ValueModel};
use crate::abi::value_models;

verus! {

broadcast use vstd::seq::group_seq_axioms;

/// The text of a byte string: `0x`, then its hexadecimal digits; of one
/// longer than `limit` bytes only the first eight bytes, then `...`.
pub open spec fn bytes_display(bytes: Seq<u8>, limit: nat) -> Seq<char> {
    if bytes.len() > limit {
        "0x"@ + hex_lower(bytes.take(8)) + "..."@
    } else {
        "0x"@ + hex_lower(bytes)
    }
}

/// The text of an address: one longer than ten characters is cut to its
/// first five and its last two characters with `...` between.
pub open spec fn address_display(text: Seq<char>) -> Seq<char> {
    if text.len() > 10 {
        text.take(5) + "..."@ + text.skip(text.len() - 2)
    } else {
        text
    }
}

/// The text of a text: in double quotes, and one longer than thirty
/// characters cut to its first 27 with `...` after them.
pub open spec fn text_display(text: Seq<char>) -> Seq<char> {
    if text.len() > 30 {
        "\""@ + text.take(27) + "...\""@
    } else {
        "\""@ + text + "\""@
    }
}

/// The compact text of a value. An array of more than three items only says
/// how many it holds.
pub open spec fn display_of(v: ValueModel) -> Seq<char>
    decreases v,
{
    match v {
        ValueModel::Uint8(x) => decimal(x as nat),
        ValueModel::Uint16(x) => decimal(x as nat),
        ValueModel::Uint32(x) => decimal(x as nat),
        ValueModel::Uint64(x) => decimal(x as nat),
        ValueModel::Uint128(x) => decimal(x as nat),
        ValueModel::Uint256(text) => text,
        ValueModel::Int8(x) => signed_decimal(x as int),
        ValueModel::Int16(x) => signed_decimal(x as int),
        ValueModel::Int32(x) => signed_decimal(x as int),
        ValueModel::Int64(x) => signed_decimal(x as int),
        ValueModel::Int128(x) => signed_decimal(x as int),
        ValueModel::Int256(text) => text,
        ValueModel::Address(text) => address_display(text),
        ValueModel::Bool(b) => if b {
            "true"@
        } else {
            "false"@
        },
        ValueModel::Bytes1(b) => bytes_display(b, 8),
        ValueModel::Bytes2(b) => bytes_display(b, 8),
        ValueModel::Bytes4(b) => bytes_display(b, 8),
        ValueModel::Bytes8(b) => bytes_display(b, 8),
        ValueModel::Bytes16(b) => bytes_display(b, 8),
        ValueModel::Bytes32(b) => bytes_display(b, 8),
        ValueModel::String(text) => text_display(text),
        ValueModel::Bytes(b) => bytes_display(b, 8),
        ValueModel::Array(items) => if items.len() > 3 {
            "["@ + decimal(items.len()) + " items]"@
        } else if items.len() == 3 {
            "["@ + display_of(items[0]) + ", "@ + display_of(items[1]) + ", "@ + display_of(
                items[2],
            ) + "]"@
        } else if items.len() == 2 {
            "["@ + display_of(items[0]) + ", "@ + display_of(items[1]) + "]"@
        } else if items.len() == 1 {
            "["@ + display_of(items[0]) + "]"@
        } else {
            "[]"@
        },
        ValueModel::Struct(_) => "struct{...}"@,
        ValueModel::Unsupported => "unsupported"@,
    }
}

/// The compact texts of the first `k` values, with `, ` between neighbours.
pub open spec fn display_list(args: Seq<ValueModel>, k: int) -> Seq<char>
    decreases k,
{
    if k <= 0 {
        Seq::empty()
    } else if k == 1 {
        display_of(args[0])
    } else {
        display_list(args, k - 1) + ", "@ + display_of(args[k - 1])
    }
}

fn write_bytes(bytes: &Vec<u8>) -> (r: Vec<char>)
    ensures
        r@ == bytes_display(bytes@, 8),
{
    let mut out = chars_of("0x");
    if bytes.len() > 8 {
        let mut head: Vec<u8> = Vec::new();
        let mut i: usize = 0;
        while i < 8
            invariant
                i <= 8 < bytes.len(),
                head@ == bytes@.take(i as int),
            decreases 8 - i,
        {
            head.push(bytes[i]);
            i += 1;
        }
        append_str(&mut out, encode_hex(&head).as_str());
        append_str(&mut out, "...");
    } else {
        append_str(&mut out, encode_hex(bytes).as_str());
    }
    out
}

fn write_array_bytes(bytes: &[u8]) -> (r: Vec<char>)
    ensures
        r@ == bytes_display(bytes@, 8),
{
    write_bytes(&vstd::slice::slice_to_vec(bytes))
}

fn write_value(value: &SolidityValue) -> (r: Vec<char>)
    ensures
        r@ == display_of(value@),
    decreases value,
{
    match value {
        SolidityValue::Uint8(x) => write_decimal(*x as u128),
        SolidityValue::Uint16(x) => write_decimal(*x as u128),
        SolidityValue::Uint32(x) => write_decimal(*x as u128),
        SolidityValue::Uint64(x) => write_decimal(*x as u128),
        SolidityValue::Uint128(x) => write_decimal(*x),
        SolidityValue::Uint256(text) => chars_of(text.as_str()),
        SolidityValue::Int8(x) => write_signed_decimal(*x as i128),
        SolidityValue::Int16(x) => write_signed_decimal(*x as i128),
        SolidityValue::Int32(x) => write_signed_decimal(*x as i128),
        SolidityValue::Int64(x) => write_signed_decimal(*x as i128),
        SolidityValue::Int128(x) => write_signed_decimal(*x),
        SolidityValue::Int256(text) => chars_of(text.as_str()),
        SolidityValue::Address(text) => {
            let chars = chars_of(text.as_str());
            if chars.len() > 10 {
                let mut out = slice_of(&chars, 0, 5);
                append_str(&mut out, "...");
                append_chars(&mut out, &slice_of(&chars, chars.len() - 2, chars.len()));
                assert(chars@.subrange(chars@.len() - 2, chars@.len() as int) == chars@.skip(
                    chars@.len() - 2,
                ));
                out
            } else {
                chars
            }
        },
        SolidityValue::Bool(b) => if *b {
            chars_of("true")
        } else {
            chars_of("false")
        },
        SolidityValue::Bytes1(b) => write_array_bytes(b),
        SolidityValue::Bytes2(b) => write_array_bytes(b),
        SolidityValue::Bytes4(b) => write_array_bytes(b),
        SolidityValue::Bytes8(b) => write_array_bytes(b),
        SolidityValue::Bytes16(b) => write_array_bytes(b),
        SolidityValue::Bytes32(b) => write_array_bytes(b),
        SolidityValue::String(text) => {
            let chars = chars_of(text.as_str());
            let mut out = chars_of("\"");
            if chars.len() > 30 {
                append_chars(&mut out, &slice_of(&chars, 0, 27));
                append_str(&mut out, "...\"");
            } else {
                append_chars(&mut out, &chars);
                append_str(&mut out, "\"");
            }
            out
        },
        SolidityValue::Bytes(b) => write_bytes(b),
        SolidityValue::Array(items) => {
            let mut out = chars_of("[");
            if items.len() > 3 {
                append_chars(&mut out, &write_decimal(items.len() as u128));
                append_str(&mut out, " items]");
            } else {
                if items.len() >= 1 {
                    append_chars(&mut out, &write_value(&items[0]));
                }
                if items.len() >= 2 {
                    append_str(&mut out, ", ");
                    append_chars(&mut out, &write_value(&items[1]));
                }
                if items.len() >= 3 {
                    append_str(&mut out, ", ");
                    append_chars(&mut out, &write_value(&items[2]));
                }
                append_str(&mut out, "]");
                proof {
                    reveal_strlit("[");
                    reveal_strlit("]");
                    reveal_strlit("[]");
                }
            }
            out
        },
        SolidityValue::Struct(_) => chars_of("struct{...}"),
        SolidityValue::Unsupported => chars_of("unsupported"),
    }
}

/// The compact text of a value.
pub fn format_value_for_display(value: &SolidityValue) -> (r: String)
    ensures
        r@ == display_of(value@),
{
    string_of(&write_value(value))
}

/// The compact texts of the values, with `, ` between neighbours.
pub fn format_args_for_display(args: &Vec<SolidityValue>) -> (r: String)
    ensures
        r@ == display_list(value_models(args@), args.len() as int),
{
    let ghost models = value_models(args@);
    let mut out: Vec<char> = Vec::new();
    let mut i: usize = 0;
    while i < args.len()
        invariant
            i <= args.len(),
            models == value_models(args@),
            out@ == display_list(models, i as int),
        decreases args.len() - i,
    {
        if i > 0 {
            append_str(&mut out, ", ");
        }
        append_chars(&mut out, &write_value(&args[i]));
        i += 1;
    }
    string_of(&out)
}

} // verus!
