use ethers::abi::Token;
use ethers::types::{H160, U256};
use solidity_fuzzer::abi::{
    build_method_signature, calculate_selector, encode_abi_args, encode_static, EncodeError,
};
use solidity_fuzzer::types::SolidityValue;

fn word_of(value: SolidityValue) -> Vec<u8> {
    encode_static(&value).unwrap()
}

#[test]
fn selector_of_transfer() {
    assert_eq!(calculate_selector("transfer(address,uint256)"), [0xa9, 0x05, 0x9c, 0xbb]);
}

#[test]
fn selectors_of_other_well_known_methods() {
    assert_eq!(calculate_selector("balanceOf(address)"), [0x70, 0xa0, 0x82, 0x31]);
    assert_eq!(calculate_selector("approve(address,uint256)"), [0x09, 0x5e, 0xa7, 0xb3]);
    assert_eq!(calculate_selector("totalSupply()"), [0x18, 0x16, 0x0d, 0xdd]);
}

#[test]
fn uint8_is_right_aligned() {
    for v in [0u8, 1, 7, 128, 255] {
        let mut expected = vec![0u8; 31];
        expected.push(v);
        assert_eq!(word_of(SolidityValue::Uint8(v)), expected);
    }
}

#[test]
fn wider_unsigned_integers_are_big_endian() {
    let word = word_of(SolidityValue::Uint16(0x1234));
    assert_eq!(&word[..30], &[0u8; 30][..]);
    assert_eq!(&word[30..], &[0x12, 0x34][..]);
    let word = word_of(SolidityValue::Uint32(0xdead_beef));
    assert_eq!(&word[..28], &[0u8; 28][..]);
    assert_eq!(&word[28..], &[0xde, 0xad, 0xbe, 0xef][..]);
    let word = word_of(SolidityValue::Uint64(u64::MAX));
    assert_eq!(&word[..24], &[0u8; 24][..]);
    assert_eq!(&word[24..], &[0xff; 8][..]);
    let word = word_of(SolidityValue::Uint128(1u128 << 127));
    assert_eq!(&word[..16], &[0u8; 16][..]);
    assert_eq!(word[16], 0x80);
    assert_eq!(&word[17..], &[0u8; 15][..]);
}

#[test]
fn uint256_takes_its_decimal_payload() {
    let word = word_of(SolidityValue::Uint256("1000".to_string()));
    assert_eq!(&word[..30], &[0u8; 30][..]);
    assert_eq!(&word[30..], &[0x03, 0xe8][..]);
    let word = word_of(SolidityValue::Uint256(u128::MAX.to_string()));
    assert_eq!(&word[..16], &[0u8; 16][..]);
    assert_eq!(&word[16..], &[0xff; 16][..]);
    let word = word_of(SolidityValue::Uint256("+7".to_string()));
    assert_eq!(word[31], 7);
}

const TWO_TO_256: &str =
    "115792089237316195423570985008687907853269984665640564039457584007913129639936";
const TWO_TO_256_LESS_ONE: &str =
    "115792089237316195423570985008687907853269984665640564039457584007913129639935";
const TWO_TO_255: &str =
    "57896044618658097711785492504343953926634992332820282019728792003956564819968";
const TWO_TO_255_LESS_ONE: &str =
    "57896044618658097711785492504343953926634992332820282019728792003956564819967";

#[test]
fn uint256_above_128_bits_keeps_its_value() {
    let word = word_of(SolidityValue::Uint256("340282366920938463463374607431768211456".to_string()));
    for (i, byte) in word.iter().enumerate() {
        assert_eq!(*byte, if i == 15 { 1 } else { 0 }, "byte {}", i);
    }
    assert_eq!(word_of(SolidityValue::Uint256(TWO_TO_256_LESS_ONE.to_string())), vec![0xffu8; 32]);
    let word = word_of(SolidityValue::Uint256(TWO_TO_255.to_string()));
    assert_eq!(word[0], 0x80);
    assert_eq!(&word[1..], &[0u8; 31][..]);
    let word = word_of(SolidityValue::Uint256(format!("000{}", TWO_TO_256_LESS_ONE)));
    assert_eq!(word, vec![0xffu8; 32]);
    let word = word_of(SolidityValue::Uint256("0".to_string()));
    assert_eq!(word, vec![0u8; 32]);
}

#[test]
fn uint256_that_is_no_numeral_or_does_not_fit_is_refused() {
    let longer = format!("{}0", TWO_TO_256_LESS_ONE);
    for text in ["", "abc", "-1", "12 ", " 12", "0x10", "1e3", "+", TWO_TO_256, longer.as_str()] {
        assert_eq!(
            encode_static(&SolidityValue::Uint256(text.to_string())),
            Err(EncodeError::InvalidInteger),
            "{}",
            text
        );
        assert_eq!(
            encode_abi_args(&vec![SolidityValue::Bool(true), SolidityValue::Uint256(text.to_string())]),
            Err(EncodeError::InvalidInteger),
            "{}",
            text
        );
    }
}

#[test]
fn signed_integers_are_sign_extended() {
    assert_eq!(word_of(SolidityValue::Int8(-1)), vec![0xffu8; 32]);
    let word = word_of(SolidityValue::Int8(-2));
    assert_eq!(&word[..31], &[0xffu8; 31][..]);
    assert_eq!(word[31], 0xfe);
    let word = word_of(SolidityValue::Int16(-32768));
    assert_eq!(&word[..30], &[0xffu8; 30][..]);
    assert_eq!(&word[30..], &[0x80, 0x00][..]);
    let word = word_of(SolidityValue::Int32(5));
    assert_eq!(&word[..31], &[0u8; 31][..]);
    assert_eq!(word[31], 5);
    let word = word_of(SolidityValue::Int64(i64::MIN));
    assert_eq!(&word[..24], &[0xffu8; 24][..]);
    assert_eq!(word[24], 0x80);
    assert_eq!(&word[25..], &[0u8; 7][..]);
    let word = word_of(SolidityValue::Int128(i128::MIN));
    assert_eq!(&word[..16], &[0xffu8; 16][..]);
    assert_eq!(word[16], 0x80);
    assert_eq!(&word[17..], &[0u8; 15][..]);
    let word = word_of(SolidityValue::Int128(i128::MAX));
    assert_eq!(&word[..16], &[0u8; 16][..]);
    assert_eq!(word[16], 0x7f);
    assert_eq!(&word[17..], &[0xffu8; 15][..]);
}

#[test]
fn int256_takes_its_decimal_payload() {
    assert_eq!(word_of(SolidityValue::Int256("-1".to_string())), vec![0xffu8; 32]);
    let word = word_of(SolidityValue::Int256("-256".to_string()));
    assert_eq!(&word[..30], &[0xffu8; 30][..]);
    assert_eq!(&word[30..], &[0xff, 0x00][..]);
    let word = word_of(SolidityValue::Int256("300".to_string()));
    assert_eq!(&word[30..], &[0x01, 0x2c][..]);
    let word = word_of(SolidityValue::Int256("170141183460469231731687303715884105728".to_string()));
    assert_eq!(&word[..16], &[0u8; 16][..]);
    assert_eq!(word[16], 0x80);
    assert_eq!(&word[17..], &[0u8; 15][..]);
    let word = word_of(SolidityValue::Int256(
        "-170141183460469231731687303715884105728".to_string(),
    ));
    assert_eq!(&word[..16], &[0xffu8; 16][..]);
    assert_eq!(word[16], 0x80);
    assert_eq!(&word[17..], &[0u8; 15][..]);
    let word = word_of(SolidityValue::Int256(
        "-170141183460469231731687303715884105729".to_string(),
    ));
    assert_eq!(&word[..16], &[0xffu8; 16][..]);
    assert_eq!(word[16], 0x7f);
    assert_eq!(&word[17..], &[0xffu8; 15][..]);
}

#[test]
fn int256_reaches_both_ends_of_its_range() {
    let word = word_of(SolidityValue::Int256(TWO_TO_255_LESS_ONE.to_string()));
    assert_eq!(word[0], 0x7f);
    assert_eq!(&word[1..], &[0xffu8; 31][..]);
    let word = word_of(SolidityValue::Int256(format!("-{}", TWO_TO_255)));
    assert_eq!(word[0], 0x80);
    assert_eq!(&word[1..], &[0u8; 31][..]);
    let word = word_of(SolidityValue::Int256(format!("-{}", TWO_TO_255_LESS_ONE)));
    assert_eq!(word[0], 0x80);
    assert_eq!(&word[1..31], &[0u8; 30][..]);
    assert_eq!(word[31], 1);
    assert_eq!(word_of(SolidityValue::Int256("-0".to_string())), vec![0u8; 32]);
    assert_eq!(word_of(SolidityValue::Int256("+5".to_string()))[31], 5);
}

#[test]
fn int256_that_is_no_numeral_or_does_not_fit_is_refused() {
    let below = format!("-{}", TWO_TO_256);
    let just_below = "-57896044618658097711785492504343953926634992332820282019728792003956564819969";
    for text in ["", "x", "-", "+", "--1", "1 ", "0x1", TWO_TO_255, TWO_TO_256, below.as_str(), just_below] {
        assert_eq!(
            encode_static(&SolidityValue::Int256(text.to_string())),
            Err(EncodeError::InvalidInteger),
            "{}",
            text
        );
    }
}

#[test]
fn address_fills_the_low_twenty_bytes() {
    let text = "0xaaaaaaaaaaaaaaaaaaaaaaaaaaaaaaaaaaaaaaaa";
    let word = word_of(SolidityValue::Address(text.to_string()));
    assert_eq!(&word[..12], &[0u8; 12][..]);
    assert_eq!(&word[12..], &[0xaau8; 20][..]);
    let mixed = "0xf39Fd6e51aad88F6F4ce6aB8827279cffFb92266";
    let word = word_of(SolidityValue::Address(mixed.to_string()));
    assert_eq!(
        &word[12..],
        &[
            0xf3, 0x9f, 0xd6, 0xe5, 0x1a, 0xad, 0x88, 0xf6, 0xf4, 0xce, 0x6a, 0xb8, 0x82, 0x72,
            0x79, 0xcf, 0xff, 0xb9, 0x22, 0x66
        ][..]
    );
    let bare = "00000000000000000000000000000000000000ff";
    let word = word_of(SolidityValue::Address(bare.to_string()));
    assert_eq!(word[31], 0xff);
    assert_eq!(&word[..31], &[0u8; 31][..]);
}

#[test]
fn address_that_is_not_hexadecimal_is_refused() {
    for text in ["0xzz", "0x123", "hello world!", "0x0x00"] {
        assert_eq!(
            encode_static(&SolidityValue::Address(text.to_string())),
            Err(EncodeError::InvalidAddress),
            "{}",
            text
        );
    }
}

#[test]
fn address_of_the_wrong_length_is_refused() {
    for text in ["", "0x", "0x1234", "0xaaaaaaaaaaaaaaaaaaaaaaaaaaaaaaaaaaaaaaaaaa"] {
        assert_eq!(
            encode_static(&SolidityValue::Address(text.to_string())),
            Err(EncodeError::InvalidAddressLength),
            "{}",
            text
        );
    }
}

#[test]
fn booleans_are_zero_or_one() {
    let mut expected = vec![0u8; 31];
    expected.push(1);
    assert_eq!(word_of(SolidityValue::Bool(true)), expected);
    assert_eq!(word_of(SolidityValue::Bool(false)), vec![0u8; 32]);
}

#[test]
fn fixed_bytes_are_left_aligned() {
    let word = word_of(SolidityValue::Bytes1([0xab]));
    assert_eq!(word[0], 0xab);
    assert_eq!(&word[1..], &[0u8; 31][..]);
    let word = word_of(SolidityValue::Bytes4([1, 2, 3, 4]));
    assert_eq!(&word[..4], &[1, 2, 3, 4][..]);
    assert_eq!(&word[4..], &[0u8; 28][..]);
    let word = word_of(SolidityValue::Bytes32([7; 32]));
    assert_eq!(word, vec![7u8; 32]);
    let word = word_of(SolidityValue::Bytes16([9; 16]));
    assert_eq!(&word[..16], &[9u8; 16][..]);
    assert_eq!(&word[16..], &[0u8; 16][..]);
}

#[test]
fn values_without_a_word_are_refused() {
    for value in [
        SolidityValue::Array(vec![SolidityValue::Uint8(1)]),
        SolidityValue::Struct(vec![]),
        SolidityValue::Unsupported,
        SolidityValue::String("dynamic".to_string()),
        SolidityValue::Bytes(vec![1, 2]),
    ] {
        assert_eq!(encode_static(&value), Err(EncodeError::UnsupportedType));
    }
}

#[test]
fn static_arguments_take_one_word_each() {
    let args = vec![
        SolidityValue::Uint8(1),
        SolidityValue::Bool(true),
        SolidityValue::Int64(-5),
        SolidityValue::Address("0x0000000000000000000000000000000000000001".to_string()),
        SolidityValue::Bytes8([1; 8]),
        SolidityValue::Uint256("42".to_string()),
    ];
    let blob = encode_abi_args(&args).unwrap();
    assert_eq!(blob.len(), 32 * args.len());
    for (i, arg) in args.iter().enumerate() {
        assert_eq!(&blob[32 * i..32 * (i + 1)], &encode_static(arg).unwrap()[..]);
    }
    assert_eq!(encode_abi_args(&vec![]).unwrap(), Vec::<u8>::new());
}

#[test]
fn transfer_call_data_is_laid_out_as_the_convention_says() {
    let args = vec![
        SolidityValue::Address("0x0000000000000000000000000000000000001234".to_string()),
        SolidityValue::Uint256("1000".to_string()),
    ];
    let signature = build_method_signature("transfer", &args);
    assert_eq!(signature, "transfer(address,uint256)");
    let mut data = calculate_selector(&signature).to_vec();
    data.extend_from_slice(&encode_abi_args(&args).unwrap());
    assert_eq!(&data[..4], &[0xa9, 0x05, 0x9c, 0xbb][..]);
    assert_eq!(data.len(), 4 + 32 + 32);
    let mut address = [0u8; 20];
    address[18] = 0x12;
    address[19] = 0x34;
    assert_eq!(&data[16..36], &address[..]);
    let mut last = [0u8; 16];
    last.copy_from_slice(&data[52..68]);
    assert_eq!(&data[36..52], &[0u8; 16][..]);
    assert_eq!(u128::from_be_bytes(last), 1000);
}

#[test]
fn a_text_goes_to_the_tail() {
    let blob = encode_abi_args(&vec![SolidityValue::String("abc".to_string())]).unwrap();
    assert_eq!(blob.len(), 96);
    assert_eq!(&blob[..31], &[0u8; 31][..]);
    assert_eq!(blob[31], 32);
    assert_eq!(&blob[32..63], &[0u8; 31][..]);
    assert_eq!(blob[63], 3);
    assert_eq!(&blob[64..67], b"abc");
    assert_eq!(&blob[67..], &[0u8; 29][..]);
}

#[test]
fn an_empty_text_has_only_its_length_in_the_tail() {
    let blob = encode_abi_args(&vec![SolidityValue::String(String::new())]).unwrap();
    assert_eq!(blob.len(), 64);
    assert_eq!(blob[31], 32);
    assert_eq!(&blob[32..], &[0u8; 32][..]);
}

#[test]
fn data_of_a_whole_word_gets_no_padding() {
    let blob = encode_abi_args(&vec![SolidityValue::Bytes(vec![0x11; 32])]).unwrap();
    assert_eq!(blob.len(), 96);
    assert_eq!(blob[63], 32);
    assert_eq!(&blob[64..], &[0x11u8; 32][..]);
}

#[test]
fn offsets_count_the_head_and_the_tails_before() {
    let args = vec![
        SolidityValue::Uint8(5),
        SolidityValue::String("hi".to_string()),
        SolidityValue::Bytes(vec![0xee; 33]),
        SolidityValue::Bool(true),
    ];
    let blob = encode_abi_args(&args).unwrap();
    // head: four words; tail of the text: two words; tail of the bytes: three words
    assert_eq!(blob.len(), 32 * (4 + 2 + 3));
    assert_eq!(blob[31], 5);
    assert_eq!(blob[63], 128);
    assert_eq!(blob[95], 128 + 64);
    assert_eq!(blob[127], 1);
    assert_eq!(blob[128 + 31], 2);
    assert_eq!(&blob[160..162], b"hi");
    assert_eq!(blob[192 + 31], 33);
    assert_eq!(&blob[224..257], &[0xeeu8; 33][..]);
    assert_eq!(&blob[257..], &[0u8; 31][..]);
}

#[test]
fn a_text_is_encoded_as_utf8() {
    let blob = encode_abi_args(&vec![SolidityValue::String("\u{e9}".to_string())]).unwrap();
    assert_eq!(blob[63], 2);
    assert_eq!(&blob[64..66], &[0xc3, 0xa9][..]);
}

#[test]
fn the_first_value_without_encoding_decides_the_failure() {
    let args = vec![
        SolidityValue::Uint8(1),
        SolidityValue::Address("0x12".to_string()),
        SolidityValue::Unsupported,
    ];
    assert_eq!(encode_abi_args(&args), Err(EncodeError::InvalidAddressLength));
    let args = vec![
        SolidityValue::Struct(vec![]),
        SolidityValue::Address("nothex".to_string()),
    ];
    assert_eq!(encode_abi_args(&args), Err(EncodeError::UnsupportedType));
    let args = vec![
        SolidityValue::Array(vec![
            SolidityValue::Bool(true),
            SolidityValue::Array(vec![SolidityValue::Address("0x12".to_string())]),
            SolidityValue::Unsupported,
        ]),
        SolidityValue::Address("nothex".to_string()),
    ];
    assert_eq!(encode_abi_args(&args), Err(EncodeError::InvalidAddressLength));
    let args = vec![
        SolidityValue::String("fine".to_string()),
        SolidityValue::Address("nothex".to_string()),
    ];
    assert_eq!(encode_abi_args(&args), Err(EncodeError::InvalidAddress));
}

#[test]
fn signatures_name_the_types_of_the_values() {
    assert_eq!(build_method_signature("ping", &vec![]), "ping()");
    let args = vec![
        SolidityValue::Uint8(0),
        SolidityValue::Uint16(0),
        SolidityValue::Uint32(0),
        SolidityValue::Uint64(0),
        SolidityValue::Uint128(0),
        SolidityValue::Uint256(String::new()),
        SolidityValue::Int8(0),
        SolidityValue::Int16(0),
        SolidityValue::Int32(0),
        SolidityValue::Int64(0),
        SolidityValue::Int128(0),
        SolidityValue::Int256(String::new()),
    ];
    assert_eq!(
        build_method_signature("f", &args),
        "f(uint8,uint16,uint32,uint64,uint128,uint256,int8,int16,int32,int64,int128,int256)"
    );
    let args = vec![
        SolidityValue::Address(String::new()),
        SolidityValue::Bool(true),
        SolidityValue::Bytes1([0]),
        SolidityValue::Bytes2([0; 2]),
        SolidityValue::Bytes4([0; 4]),
        SolidityValue::Bytes8([0; 8]),
        SolidityValue::Bytes16([0; 16]),
        SolidityValue::Bytes32([0; 32]),
        SolidityValue::String(String::new()),
        SolidityValue::Bytes(vec![]),
        SolidityValue::Array(vec![SolidityValue::Bool(true)]),
        SolidityValue::Struct(vec![]),
    ];
    assert_eq!(
        build_method_signature("g", &args),
        "g(address,bool,bytes1,bytes2,bytes4,bytes8,bytes16,bytes32,string,bytes,uint256[],tuple)"
    );
}

fn number(n: u64) -> SolidityValue {
    SolidityValue::Uint256(n.to_string())
}

fn word(n: u64) -> Vec<u8> {
    let mut w = vec![0u8; 24];
    w.extend_from_slice(&n.to_be_bytes());
    w
}

fn padded(text: &str) -> Vec<u8> {
    let mut w = text.as_bytes().to_vec();
    while w.len() % 32 != 0 {
        w.push(0);
    }
    w
}

#[test]
fn an_array_goes_to_the_tail_with_its_length() {
    let blob = encode_abi_args(&vec![SolidityValue::Array(vec![number(1), number(2), number(3)])]).unwrap();
    let expected: Vec<u8> = [word(0x20), word(3), word(1), word(2), word(3)].concat();
    assert_eq!(blob, expected);
    let blob = encode_abi_args(&vec![SolidityValue::Array(vec![])]).unwrap();
    assert_eq!(blob, [word(0x20), word(0)].concat());
}

#[test]
fn nested_arrays_and_arrays_of_texts_are_laid_out_as_the_convention_says() {
    // g(uint256[][],string[]) with ([[1, 2], [3]], ["one", "two", "three"])
    let args = vec![
        SolidityValue::Array(vec![
            SolidityValue::Array(vec![number(1), number(2)]),
            SolidityValue::Array(vec![number(3)]),
        ]),
        SolidityValue::Array(vec![
            SolidityValue::String("one".to_string()),
            SolidityValue::String("two".to_string()),
            SolidityValue::String("three".to_string()),
        ]),
    ];
    let expected: Vec<u8> = [
        word(0x40),
        word(0x140),
        word(2),
        word(0x40),
        word(0xa0),
        word(2),
        word(1),
        word(2),
        word(1),
        word(3),
        word(3),
        word(0x60),
        word(0xa0),
        word(0xe0),
        word(3),
        padded("one"),
        word(3),
        padded("two"),
        word(5),
        padded("three"),
    ]
    .concat();
    assert_eq!(encode_abi_args(&args).unwrap(), expected);
}

fn token_of(value: &SolidityValue) -> Token {
    let signed = |v: i128| {
        if v >= 0 {
            U256::from(v as u128)
        } else {
            U256::MAX - U256::from((-(v + 1)) as u128)
        }
    };
    let fixed = |bytes: &[u8]| Token::FixedBytes(bytes.to_vec());
    match value {
        SolidityValue::Uint8(v) => Token::Uint(U256::from(*v)),
        SolidityValue::Uint16(v) => Token::Uint(U256::from(*v)),
        SolidityValue::Uint32(v) => Token::Uint(U256::from(*v)),
        SolidityValue::Uint64(v) => Token::Uint(U256::from(*v)),
        SolidityValue::Uint128(v) => Token::Uint(U256::from(*v)),
        SolidityValue::Uint256(v) => Token::Uint(U256::from_dec_str(v).unwrap()),
        SolidityValue::Int8(v) => Token::Int(signed(*v as i128)),
        SolidityValue::Int16(v) => Token::Int(signed(*v as i128)),
        SolidityValue::Int32(v) => Token::Int(signed(*v as i128)),
        SolidityValue::Int64(v) => Token::Int(signed(*v as i128)),
        SolidityValue::Int128(v) => Token::Int(signed(*v)),
        SolidityValue::Int256(v) => match v.strip_prefix('-') {
            Some(digits) => Token::Int((!U256::from_dec_str(digits).unwrap()).overflowing_add(U256::one()).0),
            None => Token::Int(U256::from_dec_str(v).unwrap()),
        },
        SolidityValue::Address(v) => {
            Token::Address(H160::from_slice(&hex::decode(&v[2..]).unwrap()))
        }
        SolidityValue::Bool(v) => Token::Bool(*v),
        SolidityValue::Bytes1(v) => fixed(v),
        SolidityValue::Bytes2(v) => fixed(v),
        SolidityValue::Bytes4(v) => fixed(v),
        SolidityValue::Bytes8(v) => fixed(v),
        SolidityValue::Bytes16(v) => fixed(v),
        SolidityValue::Bytes32(v) => fixed(v),
        SolidityValue::String(v) => Token::String(v.clone()),
        SolidityValue::Bytes(v) => Token::Bytes(v.clone()),
        SolidityValue::Array(items) => Token::Array(items.iter().map(token_of).collect()),
        other => panic!("no token for {:?}", other),
    }
}

fn assert_same_as_ethers(args: Vec<SolidityValue>) {
    let tokens: Vec<Token> = args.iter().map(token_of).collect();
    assert_eq!(encode_abi_args(&args).unwrap(), ethers::abi::encode(&tokens), "{:?}", args);
}

#[test]
fn encodings_agree_with_another_encoder() {
    let address = SolidityValue::Address("0x70997970c51812dc3a010c7d01b50e0d17dc79c8".to_string());
    assert_same_as_ethers(vec![]);
    assert_same_as_ethers(vec![SolidityValue::Uint8(7), SolidityValue::Uint128(u128::MAX)]);
    assert_same_as_ethers(vec![
        SolidityValue::Int8(-128),
        SolidityValue::Int16(-1),
        SolidityValue::Int32(i32::MIN),
        SolidityValue::Int64(i64::MAX),
        SolidityValue::Int128(i128::MIN),
        SolidityValue::Int256("-12345678901234567890".to_string()),
        SolidityValue::Int256(format!("-{}", TWO_TO_255)),
        SolidityValue::Int256(TWO_TO_255_LESS_ONE.to_string()),
        SolidityValue::Int256("-340282366920938463463374607431768211457".to_string()),
    ]);
    assert_same_as_ethers(vec![
        SolidityValue::Uint256(TWO_TO_256_LESS_ONE.to_string()),
        SolidityValue::Uint256("340282366920938463463374607431768211456".to_string()),
        SolidityValue::Uint256("99999999999999999999999999999999999999999999999999999999999999999999999999999".to_string()),
        SolidityValue::Uint256("10000000000000000000000000000000000000000".to_string()),
    ]);
    assert_same_as_ethers(vec![
        address.clone(),
        SolidityValue::Bool(true),
        SolidityValue::Bytes1([0xab]),
        SolidityValue::Bytes2([1, 2]),
        SolidityValue::Bytes4([1, 2, 3, 4]),
        SolidityValue::Bytes8([9; 8]),
        SolidityValue::Bytes16([7; 16]),
        SolidityValue::Bytes32([5; 32]),
    ]);
    assert_same_as_ethers(vec![
        SolidityValue::String("hello world, this text is longer than one word of thirty-two bytes".to_string()),
        SolidityValue::Uint256("340282366920938463463374607431768211455".to_string()),
        SolidityValue::Bytes(vec![0xde, 0xad, 0xbe, 0xef]),
        SolidityValue::String(String::new()),
        SolidityValue::Bytes(vec![0x11; 64]),
    ]);
    assert_same_as_ethers(vec![
        SolidityValue::Array(vec![address.clone(), address.clone()]),
        SolidityValue::Bool(false),
        SolidityValue::Array(vec![]),
        SolidityValue::Array(vec![
            SolidityValue::Array(vec![SolidityValue::String("a".to_string())]),
            SolidityValue::Array(vec![]),
            SolidityValue::Array(vec![
                SolidityValue::String("\u{1f600} emoji".to_string()),
                SolidityValue::String("b".repeat(33)),
            ]),
        ]),
        SolidityValue::Array(vec![SolidityValue::Bytes(vec![1, 2, 3]), SolidityValue::Bytes(vec![])]),
    ]);
}
