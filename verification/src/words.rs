//! The 32-byte words of the binary calling convention: big-endian integers,
//! sign extension and padding.

use vstd::prelude::*;

verus! {

/// The `n` low-order bytes of `v`, most significant first.
pub open spec fn be_bytes(v: nat, n: nat) -> Seq<u8>
    decreases n,
{
    if n == 0 {
        Seq::empty()
    } else {
        be_bytes(v / 256, (n - 1) as nat).push((v % 256) as u8)
    }
}

/// The number that the bytes of `b` write, most significant first.
pub open spec fn be_value(b: Seq<u8>) -> nat
    decreases b.len(),
{
    if b.len() == 0 {
        0
    } else {
        be_value(b.drop_last()) * 256 + b.last() as nat
    }
}

/// 256 to the power `n`.
pub open spec fn pow256(n: nat) -> nat
    decreases n,
{
    if n == 0 {
        1
    } else {
        256 * pow256((n - 1) as nat)
    }
}

/// `n` copies of the byte `b`.
pub open spec fn repeated(b: u8, n: nat) -> Seq<u8> {
    Seq::new(n, |i: int| b)
}

/// Two to the power 256: the number of values of a word.
pub open spec fn word_modulus() -> nat {
    0x1_0000_0000_0000_0000_0000_0000_0000_0000_0000_0000_0000_0000_0000_0000_0000_0000nat
}

/// The word of an unsigned integer: big-endian, right-aligned.
pub open spec fn uint_word(v: nat) -> Seq<u8> {
    be_bytes(v, 32)
}

/// The word of a signed integer: its two's complement over 256 bits.
pub open spec fn int_word(v: int) -> Seq<u8> {
    if v >= 0 {
        be_bytes(v as nat, 32)
    } else {
        be_bytes((word_modulus() + v) as nat, 32)
    }
}

/// The unsigned integer that a word holds.
pub open spec fn word_uint(word: Seq<u8>) -> nat {
    be_value(word)
}

/// The signed integer that a word holds in two's complement.
pub open spec fn word_int(word: Seq<u8>) -> int {
    if be_value(word) * 2 >= word_modulus() {
        be_value(word) - word_modulus()
    } else {
        be_value(word) as int
    }
}

/// The word of a byte string of at most 32 bytes: left-aligned, zeros after.
pub open spec fn left_aligned_word(bytes: Seq<u8>) -> Seq<u8> {
    bytes + repeated(0, (32 - bytes.len()) as nat)
}

/// The word of a byte string of at most 32 bytes: right-aligned, zeros
/// before.
pub open spec fn right_aligned_word(bytes: Seq<u8>) -> Seq<u8> {
    repeated(0, (32 - bytes.len()) as nat) + bytes
}

/// `bytes` followed by as few zeros as make the length a multiple of 32.
pub open spec fn padded_to_words(bytes: Seq<u8>) -> Seq<u8> {
    bytes + repeated(0, ((32 - bytes.len() % 32) % 32) as nat)
}

/// A number written in `n` bytes takes `n` bytes.
pub proof fn lemma_be_bytes_len(v: nat, n: nat)
    ensures
        be_bytes(v, n).len() == n,
    decreases n,
{
    if n > 0 {
        lemma_be_bytes_len(v / 256, (n - 1) as nat);
    }
}

/// The bytes of zero are zeros.
pub proof fn lemma_be_bytes_zero(n: nat)
    ensures
        be_bytes(0, n) == repeated(0, n),
    decreases n,
{
    if n > 0 {
        lemma_be_bytes_zero((n - 1) as nat);
    }
}

/// A number written in bytes splits at any byte boundary: the high part
/// gives the leading bytes, the low part the trailing ones.
pub proof fn lemma_be_bytes_split(high: nat, low: nat, m: nat, n: nat)
    requires
        low < pow256(n),
    ensures
        be_bytes(high * pow256(n) + low, m + n) == be_bytes(high, m) + be_bytes(low, n),
    decreases n,
{
    if n == 0 {
        assert(high * 1 + 0 == high) by (nonlinear_arith);
        assert(be_bytes(high, m) + be_bytes(low, 0) =~= be_bytes(high, m));
    } else {
        let p = pow256((n - 1) as nat);
        let x = high * pow256(n) + low;
        let t = high * p;
        assert(high * pow256(n) == t * 256) by (nonlinear_arith)
            requires
                pow256(n) == 256 * p,
                t == high * p,
        ;
        assert(x / 256 == t + low / 256);
        assert(x % 256 == low % 256);
        assert(low / 256 < p);
        lemma_be_bytes_split(high, low / 256, m, (n - 1) as nat);
        assert(be_bytes(x, m + n) == be_bytes(x / 256, (m + n - 1) as nat).push((x % 256) as u8));
        assert(be_bytes(low, n) == be_bytes(low / 256, (n - 1) as nat).push((low % 256) as u8));
        assert(be_bytes(x, m + n) =~= be_bytes(high, m) + be_bytes(low, n));
    }
}

/// Reading back the bytes of a number that fits gives the number.
pub proof fn lemma_be_roundtrip(v: nat, n: nat)
    requires
        v < pow256(n),
    ensures
        be_value(be_bytes(v, n)) == v,
    decreases n,
{
    if n > 0 {
        let rest = be_bytes(v / 256, (n - 1) as nat);
        lemma_be_roundtrip(v / 256, (n - 1) as nat);
        assert(be_bytes(v, n).drop_last() =~= rest);
    }
}

/// The powers of 256 at the widths of the integer types.
pub proof fn lemma_pow256_values()
    ensures
        pow256(1) == 0x100,
        pow256(2) == 0x1_0000,
        pow256(4) == 0x1_0000_0000,
        pow256(8) == 0x1_0000_0000_0000_0000,
        pow256(16) == 0x1_0000_0000_0000_0000_0000_0000_0000_0000,
        pow256(32) == word_modulus(),
{
    reveal_with_fuel(pow256, 5);
    lemma_pow256_adds(4, 4);
    lemma_pow256_adds(8, 8);
    lemma_pow256_adds(16, 16);
    assert(0x1_0000_0000_0000_0000nat * 0x1_0000_0000_0000_0000nat
        == 0x1_0000_0000_0000_0000_0000_0000_0000_0000nat) by (nonlinear_arith);
    assert(0x1_0000_0000_0000_0000_0000_0000_0000_0000nat
        * 0x1_0000_0000_0000_0000_0000_0000_0000_0000nat
        == 0x1_0000_0000_0000_0000_0000_0000_0000_0000_0000_0000_0000_0000_0000_0000_0000_0000nat) by (nonlinear_arith);
}

/// A power of 256 at a sum of exponents is the product of the powers.
pub proof fn lemma_pow256_adds(a: nat, b: nat)
    ensures
        pow256(a + b) == pow256(a) * pow256(b),
    decreases b,
{
    if b == 0 {
        assert(pow256(a) * 1 == pow256(a)) by (nonlinear_arith);
    } else {
        lemma_pow256_adds(a, (b - 1) as nat);
        let x = pow256(a);
        let y = pow256((b - 1) as nat);
        assert(256 * (x * y) == x * (256 * y)) by (nonlinear_arith);
    }
}

/// The `n` low-order bytes of `v`, most significant first.
pub fn write_be(v: u128, n: usize) -> (r: Vec<u8>)
    ensures
        r@ == be_bytes(v as nat, n as nat),
        r.len() == n,
{
    let mut out: Vec<u8> = Vec::new();
    let mut rest: u128 = v;
    let mut i: usize = 0;
    while i < n
        invariant
            i <= n,
            out.len() == i,
            be_bytes(v as nat, n as nat) == be_bytes(rest as nat, (n - i) as nat) + out@,
        decreases n - i,
    {
        let ghost tail = out@;
        out.insert(0, (rest % 256) as u8);
        assert(be_bytes(rest as nat, (n - i) as nat) + tail =~= be_bytes(
            (rest / 256) as nat,
            (n - i - 1) as nat,
        ) + out@);
        rest = rest / 256;
        i += 1;
    }
    out
}

/// `n` copies of the byte `b`.
pub fn fill(b: u8, n: usize) -> (r: Vec<u8>)
    ensures
        r@ == repeated(b, n as nat),
{
    let mut out: Vec<u8> = Vec::new();
    while out.len() < n
        invariant
            out.len() <= n,
            forall|i: int| 0 <= i < out.len() ==> out[i] == b,
        decreases n - out.len(),
    {
        out.push(b);
    }
    out
}

/// Appends the bytes of `tail` to `v`.
pub fn append_bytes(v: &mut Vec<u8>, tail: &Vec<u8>)
    ensures
        final(v)@ == old(v)@ + tail@,
{
    let mut i: usize = 0;
    while i < tail.len()
        invariant
            i <= tail.len(),
            v@ == old(v)@ + tail@.take(i as int),
        decreases tail.len() - i,
    {
        v.push(tail[i]);
        i += 1;
    }
}

/// The word of an unsigned integer.
pub fn encode_uint(v: u128) -> (r: Vec<u8>)
    ensures
        r@ == uint_word(v as nat),
        r.len() == 32,
{
    write_be(v, 32)
}

/// The word of a signed integer.
pub fn encode_int(v: i128) -> (r: Vec<u8>)
    ensures
        r@ == int_word(v as int),
        r.len() == 32,
{
    if v >= 0 {
        write_be(v as u128, 32)
    } else {
        let below: u128 = (-(v + 1)) as u128;
        let low: u128 = u128::MAX - below;
        let mut out = fill(0xff, 16);
        let tail = write_be(low, 16);
        append_bytes(&mut out, &tail);
        proof {
            lemma_pow256_values();
            let high: nat = 0xffff_ffff_ffff_ffff_ffff_ffff_ffff_ffff;
            lemma_be_bytes_split(high, low as nat, 16, 16);
            assert(0xffff_ffff_ffff_ffff_ffff_ffff_ffff_ffffnat
                * 0x1_0000_0000_0000_0000_0000_0000_0000_0000nat
                == 0xffff_ffff_ffff_ffff_ffff_ffff_ffff_ffff_0000_0000_0000_0000_0000_0000_0000_0000nat)
                by (nonlinear_arith);
            lemma_be_bytes_ones();
        }
        out
    }
}

/// The bytes of the largest 128-bit number are all `0xff`.
proof fn lemma_be_bytes_ones()
    ensures
        be_bytes(0xffff_ffff_ffff_ffff_ffff_ffff_ffff_ffff, 16) == repeated(0xff, 16),
{
    reveal_with_fuel(be_bytes, 17);
}

} // verus!
