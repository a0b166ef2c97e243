use solidity_fuzzer::display::{format_args_for_display, format_value_for_display};
use solidity_fuzzer::types::SolidityValue;

fn show(value: SolidityValue) -> String {
    format_value_for_display(&value)
}

#[test]
fn integers_are_shown_in_decimal() {
    assert_eq!(show(SolidityValue::Uint8(255)), "255");
    assert_eq!(show(SolidityValue::Uint16(0)), "0");
    assert_eq!(show(SolidityValue::Uint32(4294967295)), "4294967295");
    assert_eq!(show(SolidityValue::Uint64(u64::MAX)), "18446744073709551615");
    assert_eq!(show(SolidityValue::Uint128(u128::MAX)), "340282366920938463463374607431768211455");
    assert_eq!(show(SolidityValue::Int8(-128)), "-128");
    assert_eq!(show(SolidityValue::Int16(-1)), "-1");
    assert_eq!(show(SolidityValue::Int32(7)), "7");
    assert_eq!(show(SolidityValue::Int64(i64::MIN)), "-9223372036854775808");
    assert_eq!(show(SolidityValue::Int128(i128::MIN)), "-170141183460469231731687303715884105728");
    assert_eq!(show(SolidityValue::Uint256("123".to_string())), "123");
    assert_eq!(show(SolidityValue::Int256("-5".to_string())), "-5");
    assert_eq!(show(SolidityValue::Uint256("anything".to_string())), "anything");
}

#[test]
fn addresses_are_cut_in_the_middle() {
    assert_eq!(show(SolidityValue::Address("0xf39fd6e51aad88f6f4ce6ab8827279cfffb92266".to_string())), "0xf39...66");
    assert_eq!(show(SolidityValue::Address("0x12345678".to_string())), "0x12345678");
    assert_eq!(show(SolidityValue::Address("0x123456789".to_string())), "0x123...89");
    assert_eq!(show(SolidityValue::Address(String::new())), "");
}

#[test]
fn booleans_are_words() {
    assert_eq!(show(SolidityValue::Bool(true)), "true");
    assert_eq!(show(SolidityValue::Bool(false)), "false");
}

#[test]
fn texts_are_quoted_and_cut() {
    assert_eq!(show(SolidityValue::String(String::new())), "\"\"");
    assert_eq!(show(SolidityValue::String("hello".to_string())), "\"hello\"");
    let thirty: String = std::iter::repeat('a').take(30).collect();
    assert_eq!(show(SolidityValue::String(thirty.clone())), format!("\"{}\"", thirty));
    let longer: String = std::iter::repeat('b').take(31).collect();
    assert_eq!(show(SolidityValue::String(longer)), format!("\"{}...\"", "b".repeat(27)));
}

#[test]
fn bytes_are_hexadecimal_and_cut_after_eight() {
    assert_eq!(show(SolidityValue::Bytes(vec![])), "0x");
    assert_eq!(show(SolidityValue::Bytes(vec![0xde, 0xad])), "0xdead");
    assert_eq!(show(SolidityValue::Bytes(vec![1; 8])), "0x0101010101010101");
    assert_eq!(show(SolidityValue::Bytes(vec![1, 2, 3, 4, 5, 6, 7, 8, 9])), "0x0102030405060708...");
    assert_eq!(show(SolidityValue::Bytes1([0xab])), "0xab");
    assert_eq!(show(SolidityValue::Bytes2([0xab, 0xcd])), "0xabcd");
    assert_eq!(show(SolidityValue::Bytes4([1, 2, 3, 4])), "0x01020304");
    assert_eq!(show(SolidityValue::Bytes8([0xff; 8])), "0xffffffffffffffff");
    assert_eq!(show(SolidityValue::Bytes16([0x11; 16])), "0x1111111111111111...");
    assert_eq!(show(SolidityValue::Bytes32([0x22; 32])), "0x2222222222222222...");
}

#[test]
fn short_arrays_list_their_items() {
    let n = |v: u8| SolidityValue::Uint8(v);
    assert_eq!(show(SolidityValue::Array(vec![])), "[]");
    assert_eq!(show(SolidityValue::Array(vec![n(1)])), "[1]");
    assert_eq!(show(SolidityValue::Array(vec![n(1), n(2)])), "[1, 2]");
    assert_eq!(show(SolidityValue::Array(vec![n(1), n(2), n(3)])), "[1, 2, 3]");
    assert_eq!(show(SolidityValue::Array(vec![n(1), n(2), n(3), n(4)])), "[4 items]");
    let nested = SolidityValue::Array(vec![
        SolidityValue::Array(vec![SolidityValue::Bool(true)]),
        SolidityValue::Array(vec![n(0); 12]),
    ]);
    assert_eq!(show(nested), "[[true], [12 items]]");
}

#[test]
fn other_values_have_fixed_texts() {
    assert_eq!(show(SolidityValue::Struct(vec![("a".to_string(), SolidityValue::Bool(true))])), "struct{...}");
    assert_eq!(show(SolidityValue::Unsupported), "unsupported");
}

#[test]
fn arguments_are_joined_with_commas() {
    assert_eq!(format_args_for_display(&vec![]), "");
    assert_eq!(format_args_for_display(&vec![SolidityValue::Bool(true)]), "true");
    assert_eq!(
        format_args_for_display(&vec![
            SolidityValue::Address("0x0000000000000000000000000000000000001234".to_string()),
            SolidityValue::Uint256("1000".to_string()),
            SolidityValue::String("memo".to_string()),
        ]),
        "0x000...34, 1000, \"memo\""
    );
}
