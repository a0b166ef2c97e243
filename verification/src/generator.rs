//! The argument generator: random values for each parameter type, drawn from
//! distributions that favour the boundaries where contracts tend to break.
//!
//! Every draw comes from [`crate::entropy`]. The functions that turn a draw
//! into a value take the draw as an argument and are exact; the functions that
//! make the draws state what holds of every outcome.

use vstd::prelude::*;
use rand::rngs::ThreadRng;
use crate::entropy::{random_below, random_word};
use crate::hex_text::{encode_hex, hex_lower};
use crate::numerals::{decimal, signed_decimal, write_signed_decimal};
use crate::text::{chars_of, string_of};
use crate::types::{SolidityType, SolidityValue, TypeModel, ValueModel};
use crate::wide::{wide_max, widen, write_wide_decimal, Wide};

verus! {

/// Two to the power `k`.
pub open spec fn two_to(k: nat) -> nat
    decreases k,
{
    if k == 0 {
        1
    } else {
        2 * two_to((k - 1) as nat)
    }
}

/// Ten to the power `k`.
pub open spec fn ten_to(k: nat) -> nat
    decreases k,
{
    if k == 0 {
        1
    } else {
        10 * ten_to((k - 1) as nat)
    }
}

proof fn lemma_two_to_grows(a: nat, b: nat)
    requires
        a <= b,
    ensures
        two_to(a) <= two_to(b),
    decreases b,
{
    if a < b {
        lemma_two_to_grows(a, (b - 1) as nat);
    }
}

proof fn lemma_ten_to_grows(a: nat, b: nat)
    requires
        a <= b,
    ensures
        ten_to(a) <= ten_to(b),
    decreases b,
{
    if a < b {
        lemma_ten_to_grows(a, (b - 1) as nat);
    }
}

proof fn lemma_two_to_32()
    ensures
        two_to(32) == 0x1_0000_0000,
{
    reveal_with_fuel(two_to, 33);
}

proof fn lemma_two_to_adds(a: nat, b: nat)
    ensures
        two_to(a + b) == two_to(a) * two_to(b),
    decreases b,
{
    if b == 0 {
        assert(two_to(a) * 1 == two_to(a));
    } else {
        lemma_two_to_adds(a, (b - 1) as nat);
        assert(2 * (two_to(a) * two_to((b - 1) as nat)) == two_to(a) * (2 * two_to((b - 1) as nat)))
            by (nonlinear_arith);
    }
}

proof fn lemma_two_to_127()
    ensures
        two_to(127) == 0x8000_0000_0000_0000_0000_0000_0000_0000,
{
    lemma_two_to_32();
    lemma_two_to_adds(32, 32);
    lemma_two_to_adds(64, 32);
    lemma_two_to_adds(96, 31);
    assert(two_to(31) == 0x8000_0000) by {
        reveal_with_fuel(two_to, 2);
    }
}

proof fn lemma_ten_to_38()
    ensures
        ten_to(38) == 100_000_000_000_000_000_000_000_000_000_000_000_000,
{
    reveal_with_fuel(ten_to, 39);
}

/// Two to the power `k`, for a power that fits 128 bits.
pub fn power_of_two(k: u32) -> (v: u128)
    requires
        k < 128,
    ensures
        v == two_to(k as nat),
{
    let mut v: u128 = 1;
    let mut i: u32 = 0;
    while i < k
        invariant
            i <= k < 128,
            v == two_to(i as nat),
        decreases k - i,
    {
        proof {
            lemma_two_to_grows((i + 1) as nat, 127);
            lemma_two_to_127();
        }
        v = v * 2;
        i += 1;
    }
    v
}

/// Ten to the power `k`, for a power that fits 128 bits.
pub fn power_of_ten(k: u32) -> (v: u128)
    requires
        k <= 38,
    ensures
        v == ten_to(k as nat),
{
    let mut v: u128 = 1;
    let mut i: u32 = 0;
    while i < k
        invariant
            i <= k <= 38,
            v == ten_to(i as nat),
        decreases k - i,
    {
        proof {
            lemma_ten_to_grows((i + 1) as nat, 38);
            lemma_ten_to_38();
        }
        v = v * 10;
        i += 1;
    }
    v
}

/// The value with the lowest `128 - shift` bits set: the largest 128-bit value
/// moved right by `shift` places.
pub fn low_bits_set(shift: u32) -> (v: u128)
    requires
        shift < 128,
    ensures
        v == two_to((128 - shift) as nat) - 1,
{
    let half = power_of_two(127 - shift);
    proof {
        lemma_two_to_grows(0, (127 - shift) as nat);
        lemma_two_to_grows((127 - shift) as nat, 127);
        lemma_two_to_127();
    }
    (half - 1) * 2 + 1
}

/// The distributions from which an unsigned 256-bit argument is drawn.
#[derive(Debug, Clone, Copy, PartialEq, Eq, Structural)]
pub enum Uint256Band {
    /// Uniform in `[0, 100]`.
    Tiny,
    /// Uniform in `[100, 100 000]`.
    Small,
    /// Uniform in `[100 000, 10 000 000]`.
    Medium,
    /// One of the six edge values.
    Edge,
    /// A power of two, or a value just below the top.
    PowerOfTwo,
    /// A power of ten.
    PowerOfTen,
    /// Uniform over the 128-bit range.
    Wide,
}

/// The band that a strategy index in `[0, 100)` selects: 20, 20, 15, 10, 15,
/// 10 and 10 indices, in this order.
pub open spec fn uint256_band_of(strategy: nat) -> Uint256Band {
    if strategy < 20 {
        Uint256Band::Tiny
    } else if strategy < 40 {
        Uint256Band::Small
    } else if strategy < 55 {
        Uint256Band::Medium
    } else if strategy < 65 {
        Uint256Band::Edge
    } else if strategy < 80 {
        Uint256Band::PowerOfTwo
    } else if strategy < 90 {
        Uint256Band::PowerOfTen
    } else {
        Uint256Band::Wide
    }
}

/// The band of the unsigned generator that a strategy index selects.
pub fn uint256_band(strategy: u8) -> (band: Uint256Band)
    ensures
        band == uint256_band_of(strategy as nat),
{
    if strategy < 20 {
        Uint256Band::Tiny
    } else if strategy < 40 {
        Uint256Band::Small
    } else if strategy < 55 {
        Uint256Band::Medium
    } else if strategy < 65 {
        Uint256Band::Edge
    } else if strategy < 80 {
        Uint256Band::PowerOfTwo
    } else if strategy < 90 {
        Uint256Band::PowerOfTen
    } else {
        Uint256Band::Wide
    }
}

/// The edge values of the unsigned generator, by index: 0, 1, 2, the largest
/// 32-bit and 64-bit values, and for every other index the largest value of
/// 256 bits.
pub open spec fn uint256_edge_of(pick: nat) -> nat {
    if pick == 0 {
        0
    } else if pick == 1 {
        1
    } else if pick == 2 {
        2
    } else if pick == 3 {
        0xffff_ffff
    } else if pick == 4 {
        0xffff_ffff_ffff_ffff
    } else {
        wide_max()
    }
}

/// The edge value of the unsigned generator at an index.
pub fn uint256_edge(pick: u8) -> (v: Wide)
    ensures
        v.value() == uint256_edge_of(pick as nat),
{
    if pick == 0 {
        widen(0)
    } else if pick == 1 {
        widen(1)
    } else if pick == 2 {
        widen(2)
    } else if pick == 3 {
        widen(0xffff_ffff)
    } else if pick == 4 {
        widen(0xffff_ffff_ffff_ffff)
    } else {
        Wide { high: u128::MAX, low: u128::MAX }
    }
}

/// The value of the power-of-two band for an exponent in `[0, 256)`: the
/// power itself while it fits 128 bits, and above that the largest value moved
/// right by `shift` places.
pub open spec fn uint256_power_of_two_of(exponent: nat, shift: nat) -> nat {
    if exponent < 128 {
        two_to(exponent)
    } else {
        (two_to((128 - shift) as nat) - 1) as nat
    }
}

/// The value of the power-of-two band for an exponent and a shift.
pub fn uint256_power_of_two(exponent: u32, shift: u32) -> (v: u128)
    requires
        shift < 128,
    ensures
        v == uint256_power_of_two_of(exponent as nat, shift as nat),
{
    if exponent < 128 {
        power_of_two(exponent)
    } else {
        low_bits_set(shift)
    }
}

/// The values that a band of the unsigned generator can give.
pub open spec fn in_uint256_band(v: nat, band: Uint256Band) -> bool {
    match band {
        Uint256Band::Tiny => v <= 100,
        Uint256Band::Small => 100 <= v <= 100_000,
        Uint256Band::Medium => 100_000 <= v <= 10_000_000,
        Uint256Band::Edge => exists|pick: nat| pick < 6 && v == uint256_edge_of(pick),
        Uint256Band::PowerOfTwo => exists|exponent: nat, shift: nat|
            exponent < 256 && shift < 10 && v == uint256_power_of_two_of(exponent, shift),
        Uint256Band::PowerOfTen => exists|k: nat| k <= 38 && v == ten_to(k),
        Uint256Band::Wide => v <= u128::MAX,
    }
}

/// Draws a value from one band of the unsigned generator.
pub fn draw_uint256(rng: &mut ThreadRng, band: Uint256Band) -> (v: Wide)
    ensures
        in_uint256_band(v.value(), band),
{
    match band {
        Uint256Band::Tiny => widen(random_below(rng, 0, 101)),
        Uint256Band::Small => widen(random_below(rng, 100, 100_001)),
        Uint256Band::Medium => widen(random_below(rng, 100_000, 10_000_001)),
        Uint256Band::Edge => {
            let pick = random_below(rng, 0, 6);
            uint256_edge(pick as u8)
        },
        Uint256Band::PowerOfTwo => {
            let exponent = random_below(rng, 0, 256);
            let shift = if exponent < 128 {
                0
            } else {
                random_below(rng, 0, 10)
            };
            widen(uint256_power_of_two(exponent as u32, shift as u32))
        },
        Uint256Band::PowerOfTen => {
            let k = random_below(rng, 0, 39);
            widen(power_of_ten(k as u32))
        },
        Uint256Band::Wide => widen(random_word(rng)),
    }
}

/// The distributions from which a signed 256-bit argument is drawn.
#[derive(Debug, Clone, Copy, PartialEq, Eq, Structural)]
pub enum Int256Band {
    /// Uniform in `[-100, 100]`.
    NearZero,
    /// Uniform in `[-100 000, 100 000]`.
    Moderate,
    /// One of the six edge values.
    Edge,
    /// The negative of a value uniform in `[1, 1 000 000)`.
    Negative,
    /// Uniform over the signed 64-bit range.
    Wide,
}

/// The band that a strategy index in `[0, 100)` selects: 25, 25, 15, 15 and
/// 20 indices, in this order.
pub open spec fn int256_band_of(strategy: nat) -> Int256Band {
    if strategy < 25 {
        Int256Band::NearZero
    } else if strategy < 50 {
        Int256Band::Moderate
    } else if strategy < 65 {
        Int256Band::Edge
    } else if strategy < 80 {
        Int256Band::Negative
    } else {
        Int256Band::Wide
    }
}

/// The band of the signed generator that a strategy index selects.
pub fn int256_band(strategy: u8) -> (band: Int256Band)
    ensures
        band == int256_band_of(strategy as nat),
{
    if strategy < 25 {
        Int256Band::NearZero
    } else if strategy < 50 {
        Int256Band::Moderate
    } else if strategy < 65 {
        Int256Band::Edge
    } else if strategy < 80 {
        Int256Band::Negative
    } else {
        Int256Band::Wide
    }
}

/// The edge values of the signed generator, by index: 0, 1, -1, the largest
/// and the smallest 32-bit value, and for every other index the largest
/// 64-bit value.
pub open spec fn int256_edge_of(pick: nat) -> int {
    if pick == 0 {
        0
    } else if pick == 1 {
        1
    } else if pick == 2 {
        -1
    } else if pick == 3 {
        0x7fff_ffff
    } else if pick == 4 {
        -0x8000_0000
    } else {
        0x7fff_ffff_ffff_ffff
    }
}

/// The edge value of the signed generator at an index.
pub fn int256_edge(pick: u8) -> (v: i128)
    ensures
        v == int256_edge_of(pick as nat),
{
    if pick == 0 {
        0
    } else if pick == 1 {
        1
    } else if pick == 2 {
        -1
    } else if pick == 3 {
        0x7fff_ffff
    } else if pick == 4 {
        -0x8000_0000
    } else {
        0x7fff_ffff_ffff_ffff
    }
}

/// The values that a band of the signed generator can give.
pub open spec fn in_int256_band(v: int, band: Int256Band) -> bool {
    match band {
        Int256Band::NearZero => -100 <= v <= 100,
        Int256Band::Moderate => -100_000 <= v <= 100_000,
        Int256Band::Edge => exists|pick: nat| pick < 6 && v == int256_edge_of(pick),
        Int256Band::Negative => -1_000_000 < v <= -1,
        Int256Band::Wide => i64::MIN <= v <= i64::MAX,
    }
}

/// The number that lies `offset` above `low`.
pub open spec fn shifted(low: int, offset: int) -> int {
    low + offset
}

/// The number that lies `offset` above `low`, where it fits 128 bits.
pub fn shift(low: i128, offset: u128) -> (v: i128)
    requires
        low + offset <= i128::MAX,
    ensures
        v == shifted(low as int, offset as int),
{
    let top: u128 = 0x7fff_ffff_ffff_ffff_ffff_ffff_ffff_ffff;
    if offset <= top {
        low + (offset as i128)
    } else {
        (low + i128::MAX + 1) + ((offset - top - 1) as i128)
    }
}

/// A value uniform in `[low, low + span)`: `low` shifted by an offset drawn
/// from `[0, span)`.
fn random_from(rng: &mut ThreadRng, low: i128, span: u128) -> (v: i128)
    requires
        0 < span <= 0x1_0000_0000_0000_0000,
        -0x8000_0000_0000_0000 <= low <= 0x8000_0000_0000_0000,
    ensures
        low <= v < low + span,
        exists|offset: int| 0 <= offset < span && v == #[trigger] shifted(low as int, offset),
{
    let offset = random_below(rng, 0, span);
    let v = shift(low, offset);
    assert(v == shifted(low as int, offset as int));
    v
}

/// Draws a value from one band of the signed generator.
pub fn draw_int256(rng: &mut ThreadRng, band: Int256Band) -> (v: i128)
    ensures
        in_int256_band(v as int, band),
{
    match band {
        Int256Band::NearZero => random_from(rng, -100, 201),
        Int256Band::Moderate => random_from(rng, -100_000, 200_001),
        Int256Band::Edge => {
            let pick = random_below(rng, 0, 6);
            int256_edge(pick as u8)
        },
        Int256Band::Negative => {
            let positive = random_below(rng, 1, 1_000_000);
            -(positive as i128)
        },
        Int256Band::Wide => random_from(rng, -0x8000_0000_0000_0000, 0x1_0000_0000_0000_0000),
    }
}

/// The distributions from which an address argument is drawn.
#[derive(Debug, Clone, Copy, PartialEq, Eq, Structural)]
pub enum AddressBand {
    /// One of the five well-known test accounts.
    Known,
    /// The zero address.
    Zero,
    /// One of the small addresses `0x…01` to `0x…13`.
    Small,
    /// Twenty arbitrary bytes.
    Arbitrary,
}

/// The band that a strategy index in `[0, 100)` selects: 25, 10, 5 and 60
/// indices, in this order.
pub open spec fn address_band_of(strategy: nat) -> AddressBand {
    if strategy < 25 {
        AddressBand::Known
    } else if strategy < 35 {
        AddressBand::Zero
    } else if strategy < 40 {
        AddressBand::Small
    } else {
        AddressBand::Arbitrary
    }
}

/// The band of the address generator that a strategy index selects.
pub fn address_band(strategy: u8) -> (band: AddressBand)
    ensures
        band == address_band_of(strategy as nat),
{
    if strategy < 25 {
        AddressBand::Known
    } else if strategy < 35 {
        AddressBand::Zero
    } else if strategy < 40 {
        AddressBand::Small
    } else {
        AddressBand::Arbitrary
    }
}

/// The well-known test accounts, by index; every index above three gives the
/// fifth.
pub open spec fn known_account_of(index: nat) -> Seq<u8> {
    if index == 0 {
        seq![
            0xf3u8, 0x9f, 0xd6, 0xe5, 0x1a, 0xad, 0x88, 0xf6, 0xf4, 0xce, 0x6a, 0xb8, 0x82, 0x72,
            0x79, 0xcf, 0xff, 0xb9, 0x22, 0x66,
        ]
    } else if index == 1 {
        seq![
            0x70u8, 0x99, 0x79, 0x70, 0xc5, 0x18, 0x12, 0xdc, 0x3a, 0x01, 0x0c, 0x7d, 0x01, 0xb5,
            0x0e, 0x0d, 0x17, 0xdc, 0x79, 0xc8,
        ]
    } else if index == 2 {
        seq![
            0x3cu8, 0x44, 0xcd, 0xdd, 0xb6, 0xa9, 0x00, 0xfa, 0x2b, 0x58, 0x5d, 0xd2, 0x99, 0xe0,
            0x3d, 0x12, 0xfa, 0x42, 0x93, 0xbc,
        ]
    } else if index == 3 {
        seq![
            0x90u8, 0xf7, 0x9b, 0xf6, 0xeb, 0x2c, 0x4f, 0x87, 0x03, 0x65, 0xe7, 0x85, 0x98, 0x2e,
            0x1f, 0x10, 0x1e, 0x93, 0xb9, 0x06,
        ]
    } else {
        seq![
            0x15u8, 0xd3, 0x4a, 0xaf, 0x54, 0x26, 0x7d, 0xb7, 0xd7, 0xc3, 0x67, 0x83, 0x9a, 0xaf,
            0x71, 0xa0, 0x0a, 0x2c, 0x6a, 0x65,
        ]
    }
}

/// The bytes of the well-known test account at an index.
pub fn known_account(index: u8) -> (bytes: Vec<u8>)
    ensures
        bytes@ == known_account_of(index as nat),
        bytes.len() == 20,
{
    let bytes = if index == 0 {
        vec![
            0xf3u8, 0x9f, 0xd6, 0xe5, 0x1a, 0xad, 0x88, 0xf6, 0xf4, 0xce, 0x6a, 0xb8, 0x82, 0x72,
            0x79, 0xcf, 0xff, 0xb9, 0x22, 0x66,
        ]
    } else if index == 1 {
        vec![
            0x70u8, 0x99, 0x79, 0x70, 0xc5, 0x18, 0x12, 0xdc, 0x3a, 0x01, 0x0c, 0x7d, 0x01, 0xb5,
            0x0e, 0x0d, 0x17, 0xdc, 0x79, 0xc8,
        ]
    } else if index == 2 {
        vec![
            0x3cu8, 0x44, 0xcd, 0xdd, 0xb6, 0xa9, 0x00, 0xfa, 0x2b, 0x58, 0x5d, 0xd2, 0x99, 0xe0,
            0x3d, 0x12, 0xfa, 0x42, 0x93, 0xbc,
        ]
    } else if index == 3 {
        vec![
            0x90u8, 0xf7, 0x9b, 0xf6, 0xeb, 0x2c, 0x4f, 0x87, 0x03, 0x65, 0xe7, 0x85, 0x98, 0x2e,
            0x1f, 0x10, 0x1e, 0x93, 0xb9, 0x06,
        ]
    } else {
        vec![
            0x15u8, 0xd3, 0x4a, 0xaf, 0x54, 0x26, 0x7d, 0xb7, 0xd7, 0xc3, 0x67, 0x83, 0x9a, 0xaf,
            0x71, 0xa0, 0x0a, 0x2c, 0x6a, 0x65,
        ]
    };
    bytes
}

/// The address whose last byte is `low` and whose other bytes are zero.
pub open spec fn small_address_of(low: u8) -> Seq<u8> {
    Seq::new(20, |i: int| if i == 19 { low } else { 0u8 })
}

/// The bytes of the address whose last byte is `low` and whose other bytes are zero.
pub fn small_address(low: u8) -> (bytes: Vec<u8>)
    ensures
        bytes@ == small_address_of(low),
{
    let mut bytes: Vec<u8> = Vec::new();
    while bytes.len() < 19
        invariant
            bytes.len() <= 19,
            forall|i: int| 0 <= i < bytes.len() ==> bytes[i] == 0,
        decreases 19 - bytes.len(),
    {
        bytes.push(0);
    }
    bytes.push(low);
    bytes
}

/// `count` bytes, each uniform.
pub fn random_bytes(rng: &mut ThreadRng, count: usize) -> (bytes: Vec<u8>)
    ensures
        bytes.len() == count,
{
    let mut bytes: Vec<u8> = Vec::new();
    while bytes.len() < count
        invariant
            bytes.len() <= count,
        decreases count - bytes.len(),
    {
        let b = random_below(rng, 0, 256);
        bytes.push(b as u8);
    }
    bytes
}

/// The addresses that a band of the address generator can give, as bytes.
pub open spec fn in_address_band(bytes: Seq<u8>, band: AddressBand) -> bool {
    match band {
        AddressBand::Known => exists|index: nat| index < 5 && bytes == known_account_of(index),
        AddressBand::Zero => bytes == small_address_of(0),
        AddressBand::Small => exists|low: u8| 1 <= low < 20 && bytes == small_address_of(low),
        AddressBand::Arbitrary => bytes.len() == 20,
    }
}

/// Draws an address from one band of the address generator.
pub fn draw_address(rng: &mut ThreadRng, band: AddressBand) -> (bytes: Vec<u8>)
    ensures
        in_address_band(bytes@, band),
        bytes.len() == 20,
{
    match band {
        AddressBand::Known => {
            let index = random_below(rng, 0, 5);
            known_account(index as u8)
        },
        AddressBand::Zero => small_address(0),
        AddressBand::Small => {
            let low = random_below(rng, 1, 20);
            small_address(low as u8)
        },
        AddressBand::Arbitrary => random_bytes(rng, 20),
    }
}

/// The text in which an address of twenty bytes is carried: `0x`, then the
/// lower-case hexadecimal digits of the bytes.
pub open spec fn address_text_of(bytes: Seq<u8>) -> Seq<char> {
    seq!['0', 'x'] + hex_lower(bytes)
}

/// The text in which an address is carried.
pub fn address_text(bytes: &Vec<u8>) -> (text: String)
    ensures
        text@ == address_text_of(bytes@),
{
    let digits = encode_hex(bytes);
    let mut out: Vec<char> = Vec::new();
    out.push('0');
    out.push('x');
    let d = chars_of(digits.as_str());
    crate::text::append_chars(&mut out, &d);
    string_of(&out)
}

/// A character that prints: an ASCII code point from 32 up to, not including,
/// 127.
pub open spec fn is_printable_ascii(c: char) -> bool {
    32 <= (c as u32) && (c as u32) < 127
}

/// The numbers that the unsigned generator can give: those of the band that
/// some strategy index in `[0, 100)` selects.
pub open spec fn is_uint256_draw(n: nat) -> bool {
    exists|strategy: nat| strategy < 100 && in_uint256_band(n, #[trigger] uint256_band_of(strategy))
}

/// The numbers that the signed generator can give: those of the band that
/// some strategy index in `[0, 100)` selects.
pub open spec fn is_int256_draw(n: int) -> bool {
    exists|strategy: nat| strategy < 100 && in_int256_band(n, #[trigger] int256_band_of(strategy))
}

/// The addresses that the address generator can give: twenty bytes of the
/// band that some strategy index in `[0, 100)` selects.
pub open spec fn is_address_draw(bytes: Seq<u8>) -> bool {
    bytes.len() == 20 && exists|strategy: nat|
        strategy < 100 && in_address_band(bytes, #[trigger] address_band_of(strategy))
}

/// Every number that the unsigned generator can give fits 256 bits.
pub proof fn lemma_uint256_draw_fits(n: nat)
    requires
        is_uint256_draw(n),
    ensures
        n <= wide_max(),
{
    let strategy = choose|strategy: nat|
        strategy < 100 && in_uint256_band(n, #[trigger] uint256_band_of(strategy));
    let band = uint256_band_of(strategy);
    assert(in_uint256_band(n, band));
    lemma_two_to_127();
    lemma_ten_to_38();
    assert(two_to(128) == 2 * two_to(127));
    match band {
        Uint256Band::Tiny => {},
        Uint256Band::Small => {},
        Uint256Band::Medium => {},
        Uint256Band::Edge => {
            let pick = choose|pick: nat| pick < 6 && n == uint256_edge_of(pick);
            assert(n == uint256_edge_of(pick));
        },
        Uint256Band::PowerOfTwo => {
            let (exponent, shift) = choose|exponent: nat, shift: nat|
                exponent < 256 && shift < 10 && n == uint256_power_of_two_of(exponent, shift);
            assert(n == uint256_power_of_two_of(exponent, shift));
            if exponent < 128 {
                lemma_two_to_grows(exponent, 127);
            } else {
                lemma_two_to_grows(0, (128 - shift) as nat);
                lemma_two_to_grows((128 - shift) as nat, 128);
            }
        },
        Uint256Band::PowerOfTen => {
            let k = choose|k: nat| k <= 38 && n == ten_to(k);
            assert(n == ten_to(k));
            lemma_ten_to_grows(k, 38);
        },
        Uint256Band::Wide => {},
    }
}

/// Every number that the signed generator can give fits 64 bits.
pub proof fn lemma_int256_draw_fits(n: int)
    requires
        is_int256_draw(n),
    ensures
        i64::MIN <= n <= i64::MAX,
{
}

/// What holds of every value generated for a parameter of type `t`: its
/// variant is the one of `t`, and its payload is one that the generator for
/// `t` can give.
pub open spec fn fits(v: ValueModel, t: TypeModel) -> bool
    decreases t,
{
    match t {
        TypeModel::Uint8 => v is Uint8,
        TypeModel::Uint16 => v is Uint16,
        TypeModel::Uint32 => v is Uint32,
        TypeModel::Uint64 => v is Uint64,
        TypeModel::Uint128 => v is Uint128,
        TypeModel::Uint256 => v matches ValueModel::Uint256(s) && exists|n: nat|
            is_uint256_draw(n) && s == #[trigger] decimal(n),
        TypeModel::Int8 => v is Int8,
        TypeModel::Int16 => v is Int16,
        TypeModel::Int32 => v is Int32,
        TypeModel::Int64 => v is Int64,
        TypeModel::Int128 => v is Int128,
        TypeModel::Int256 => v matches ValueModel::Int256(s) && exists|n: int|
            is_int256_draw(n) && s == #[trigger] signed_decimal(n),
        TypeModel::Address => v matches ValueModel::Address(s) && exists|bytes: Seq<u8>|
            is_address_draw(bytes) && s == #[trigger] address_text_of(bytes),
        TypeModel::Bool => v is Bool,
        TypeModel::Bytes1 => v matches ValueModel::Bytes1(b) && b.len() == 1,
        TypeModel::Bytes2 => v matches ValueModel::Bytes2(b) && b.len() == 2,
        TypeModel::Bytes4 => v matches ValueModel::Bytes4(b) && b.len() == 4,
        TypeModel::Bytes8 => v matches ValueModel::Bytes8(b) && b.len() == 8,
        TypeModel::Bytes16 => v matches ValueModel::Bytes16(b) && b.len() == 16,
        TypeModel::Bytes32 => v matches ValueModel::Bytes32(b) && b.len() == 32,
        TypeModel::String => v matches ValueModel::String(s) && s.len() < 50 && forall|i: int|
            0 <= i < s.len() ==> is_printable_ascii(#[trigger] s[i]),
        TypeModel::Bytes => v matches ValueModel::Bytes(b) && b.len() < 256,
        TypeModel::Array(inner) => v matches ValueModel::Array(items) && items.len() < 10
            && forall|i: int| 0 <= i < items.len() ==> fits(#[trigger] items[i], *inner),
        TypeModel::Mapping(_, _) => v is Unsupported,
        TypeModel::Struct(_) => v is Unsupported,
        TypeModel::Custom(_) => v is Unsupported,
    }
}

/// Draws an unsigned 256-bit argument: a strategy index uniform in
/// `[0, 100)` picks the band, the band gives the value.
pub fn generate_uint256(rng: &mut ThreadRng) -> (v: Wide)
    ensures
        is_uint256_draw(v.value()),
{
    let strategy = random_below(rng, 0, 100);
    let band = uint256_band(strategy as u8);
    let v = draw_uint256(rng, band);
    assert(in_uint256_band(v.value(), uint256_band_of(strategy as nat)));
    v
}

/// Draws a signed 256-bit argument: a strategy index uniform in `[0, 100)`
/// picks the band, the band gives the value.
pub fn generate_int256(rng: &mut ThreadRng) -> (v: i128)
    ensures
        is_int256_draw(v as int),
{
    let strategy = random_below(rng, 0, 100);
    let band = int256_band(strategy as u8);
    let v = draw_int256(rng, band);
    assert(in_int256_band(v as int, int256_band_of(strategy as nat)));
    v
}

/// Draws an address argument: a strategy index uniform in `[0, 100)` picks
/// the band, the band gives the twenty bytes.
pub fn generate_address(rng: &mut ThreadRng) -> (bytes: Vec<u8>)
    ensures
        bytes.len() == 20,
        is_address_draw(bytes@),
{
    let strategy = random_below(rng, 0, 100);
    let band = address_band(strategy as u8);
    let bytes = draw_address(rng, band);
    assert(in_address_band(bytes@, address_band_of(strategy as nat)));
    bytes
}

/// The text whose characters have the code points `codes`, in order.
pub open spec fn code_text(codes: Seq<u8>) -> Seq<char> {
    Seq::new(codes.len(), |i: int| codes[i] as char)
}

/// The codes that can be drawn for a text: fewer than fifty, each the code of
/// a printable ASCII character.
pub open spec fn is_text_draw(codes: Seq<u8>) -> bool {
    codes.len() < 50 && forall|i: int| 0 <= i < codes.len() ==> 32 <= #[trigger] codes[i] < 127
}

/// The text whose characters have the code points `codes`, in order.
pub fn text_of_codes(codes: &Vec<u8>) -> (text: String)
    ensures
        text@ == code_text(codes@),
{
    let mut out: Vec<char> = Vec::new();
    let mut i: usize = 0;
    while i < codes.len()
        invariant
            i <= codes.len(),
            out@ == code_text(codes@).take(i as int),
        decreases codes.len() - i,
    {
        out.push(codes[i] as char);
        i += 1;
        assert(code_text(codes@).take(i as int) == code_text(codes@).take(i - 1).push(
            code_text(codes@)[i - 1],
        ));
    }
    assert(code_text(codes@).take(codes.len() as int) == code_text(codes@));
    string_of(&out)
}

/// A text of fewer than fifty printable ASCII characters: the length is drawn
/// from `[0, 50)`, then a code from `[32, 127)` for each character, and the
/// text is the one that [`text_of_codes`] makes of the codes.
pub fn generate_text(rng: &mut ThreadRng) -> (text: String)
    ensures
        text@.len() < 50,
        forall|i: int| 0 <= i < text@.len() ==> is_printable_ascii(#[trigger] text@[i]),
        exists|codes: Seq<u8>| is_text_draw(codes) && text@ == #[trigger] code_text(codes),
{
    let length = random_below(rng, 0, 50) as usize;
    let mut codes: Vec<u8> = Vec::new();
    while codes.len() < length
        invariant
            codes.len() <= length < 50,
            forall|i: int| 0 <= i < codes.len() ==> 32 <= #[trigger] codes@[i] < 127,
        decreases length - codes.len(),
    {
        let code = random_below(rng, 32, 127) as u8;
        codes.push(code);
    }
    let text = text_of_codes(&codes);
    assert(is_text_draw(codes@));
    assert(text@ == code_text(codes@));
    assert forall|i: int| 0 <= i < text@.len() implies is_printable_ascii(#[trigger] text@[i]) by {
        assert(32 <= codes@[i] < 127);
    }
    text
}

/// Copies `N` bytes into an array.
fn array_of<const N: usize>(bytes: &Vec<u8>) -> (a: [u8; N])
    requires
        bytes.len() == N,
    ensures
        a@ == bytes@,
{
    let mut a = [0u8; N];
    let mut i: usize = 0;
    while i < N
        invariant
            i <= N == bytes.len(),
            forall|j: int| 0 <= j < i ==> a@[j] == bytes@[j],
        decreases N - i,
    {
        a[i] = bytes[i];
        i += 1;
    }
    a
}

/// Generates an argument for a parameter of type `t`.
///
/// Scalars narrower than 256 bits are uniform over their range, fixed-width
/// byte strings and byte vectors hold uniform bytes, texts hold printable
/// ASCII, arrays hold fewer than ten generated elements, and the 256-bit
/// integers and addresses come from their banded generators. A type that
/// cannot be fuzzed gives [`SolidityValue::Unsupported`].
pub fn generate_random_value(rng: &mut ThreadRng, t: &SolidityType) -> (v: SolidityValue)
    ensures
        fits(v@, t@),
    decreases t,
{
    match t {
        SolidityType::Uint8 => SolidityValue::Uint8(random_below(rng, 0, 0x100) as u8),
        SolidityType::Uint16 => SolidityValue::Uint16(random_below(rng, 0, 0x1_0000) as u16),
        SolidityType::Uint32 => SolidityValue::Uint32(random_below(rng, 0, 0x1_0000_0000) as u32),
        SolidityType::Uint64 => SolidityValue::Uint64(
            random_below(rng, 0, 0x1_0000_0000_0000_0000) as u64,
        ),
        SolidityType::Uint128 => SolidityValue::Uint128(random_word(rng)),
        SolidityType::Uint256 => {
            let n = generate_uint256(rng);
            let text = string_of(&write_wide_decimal(n));
            SolidityValue::Uint256(text)
        },
        SolidityType::Int8 => SolidityValue::Int8(random_from(rng, -0x80, 0x100) as i8),
        SolidityType::Int16 => SolidityValue::Int16(random_from(rng, -0x8000, 0x1_0000) as i16),
        SolidityType::Int32 => SolidityValue::Int32(
            random_from(rng, -0x8000_0000, 0x1_0000_0000) as i32,
        ),
        SolidityType::Int64 => SolidityValue::Int64(
            random_from(rng, -0x8000_0000_0000_0000, 0x1_0000_0000_0000_0000) as i64,
        ),
        SolidityType::Int128 => {
            let word = random_word(rng);
            let half: u128 = 0x8000_0000_0000_0000_0000_0000_0000_0000;
            if word < half {
                SolidityValue::Int128(word as i128)
            } else {
                SolidityValue::Int128(((word - half) as i128) + i128::MIN)
            }
        },
        SolidityType::Int256 => {
            let n = generate_int256(rng);
            let text = string_of(&write_signed_decimal(n));
            SolidityValue::Int256(text)
        },
        SolidityType::Address => {
            let bytes = generate_address(rng);
            SolidityValue::Address(address_text(&bytes))
        },
        SolidityType::Bool => SolidityValue::Bool(random_below(rng, 0, 2) == 1),
        SolidityType::Bytes1 => SolidityValue::Bytes1(array_of::<1>(&random_bytes(rng, 1))),
        SolidityType::Bytes2 => SolidityValue::Bytes2(array_of::<2>(&random_bytes(rng, 2))),
        SolidityType::Bytes4 => SolidityValue::Bytes4(array_of::<4>(&random_bytes(rng, 4))),
        SolidityType::Bytes8 => SolidityValue::Bytes8(array_of::<8>(&random_bytes(rng, 8))),
        SolidityType::Bytes16 => SolidityValue::Bytes16(array_of::<16>(&random_bytes(rng, 16))),
        SolidityType::Bytes32 => SolidityValue::Bytes32(array_of::<32>(&random_bytes(rng, 32))),
        SolidityType::String => SolidityValue::String(generate_text(rng)),
        SolidityType::Bytes => {
            let length = random_below(rng, 0, 256) as usize;
            SolidityValue::Bytes(random_bytes(rng, length))
        },
        SolidityType::Array(inner) => {
            let length = random_below(rng, 0, 10) as usize;
            let mut items: Vec<SolidityValue> = Vec::new();
            while items.len() < length
                invariant
                    items.len() <= length < 10,
                    decreases_to!(t => inner),
                    forall|i: int| 0 <= i < items.len() ==> fits((#[trigger] items[i])@, inner@),
                decreases length - items.len(),
            {
                let item = generate_random_value(rng, inner);
                items.push(item);
            }
            let v = SolidityValue::Array(items);
            v
        },
        SolidityType::Mapping(_, _) => SolidityValue::Unsupported,
        SolidityType::Struct(_) => SolidityValue::Unsupported,
        SolidityType::Custom(_) => SolidityValue::Unsupported,
    }
}

} // verus!
