//! Unsigned numbers of 256 bits, held in two halves: read from and written
//! to decimal text, and laid out as a word.

use vstd::prelude::*;
use crate::numerals::{
    all_digits, decimal, digit_to_char, is_digit, lemma_value_grows, numeral_value, parse_signed,
    parse_unsigned, to_digit,
};
use crate::words::{
    append_bytes, lemma_be_bytes_split, lemma_pow256_values, uint_word, word_modulus, write_be,
};

verus! {

/// A number below two to the 256: `high` times two to the 128, plus `low`.
#[derive(Debug, Clone, Copy, PartialEq, Eq, Structural)]
pub struct Wide {
    pub high: u128,
    pub low: u128,
}

impl Wide {
    /// The number.
    pub open spec fn value(self) -> nat {
        (self.high * 0x1_0000_0000_0000_0000_0000_0000_0000_0000 + self.low) as nat
    }
}

/// The largest number of 256 bits.
pub open spec fn wide_max() -> nat {
    (word_modulus() - 1) as nat
}

/// Half of two to the 256: the number of non-negative values of a signed word.
pub open spec fn signed_bound() -> int {
    0x8000_0000_0000_0000_0000_0000_0000_0000_0000_0000_0000_0000_0000_0000_0000_0000int
}

/// The number `n` of at most 128 bits as a wide number.
pub fn widen(n: u128) -> (w: Wide)
    ensures
        w.value() == n,
{
    Wide { high: 0, low: n }
}

/// Ten times `w` plus the digit `d`, where that fits 256 bits.
pub fn times_ten_plus(w: Wide, d: u8) -> (r: Option<Wide>)
    ensures
        match r {
            Some(next) => next.value() == w.value() * 10 + d,
            None => w.value() * 10 + d > wide_max(),
        },
{
    let base: u128 = 0x1_0000_0000_0000_0000;
    let t0: u128 = (w.low % base) * 10 + (d as u128);
    let t1: u128 = (w.low / base) * 10 + t0 / base;
    let t2: u128 = (w.high % base) * 10 + t1 / base;
    let t3: u128 = (w.high / base) * 10 + t2 / base;
    if t3 / base != 0 {
        None
    } else {
        Some(Wide { high: (t3 % base) * base + t2 % base, low: (t1 % base) * base + t0 % base })
    }
}

/// `w` divided by ten, and the remainder.
pub fn divided_by_ten(w: Wide) -> (r: (Wide, u8))
    ensures
        r.0.value() * 10 + r.1 == w.value(),
        r.1 < 10,
{
    let base: u128 = 0x1_0000_0000_0000_0000;
    let l3: u128 = w.high / base;
    let t2: u128 = (l3 % 10) * base + w.high % base;
    let t1: u128 = (t2 % 10) * base + w.low / base;
    let t0: u128 = (t1 % 10) * base + w.low % base;
    (Wide { high: (l3 / 10) * base + t2 / 10, low: (t1 / 10) * base + t0 / 10 }, (t0 % 10) as u8)
}

/// Writes the decimal numeral of `w`.
pub fn write_wide_decimal(w: Wide) -> (r: Vec<char>)
    ensures
        r@ == decimal(w.value()),
{
    let (first, digit) = divided_by_ten(w);
    let mut out: Vec<char> = Vec::new();
    out.push(digit_to_char(digit));
    let mut rest = first;
    while rest.high != 0 || rest.low != 0
        invariant
            decimal(w.value()) == (if rest.value() == 0 {
                out@
            } else {
                decimal(rest.value()) + out@
            }),
        decreases rest.value(),
    {
        let (next, digit) = divided_by_ten(rest);
        out.insert(0, digit_to_char(digit));
        rest = next;
    }
    out
}

/// Reads the decimal digits of `v` from index `from` on as a number of 256
/// bits; `None` where there is no digit, a character that is no digit, or a
/// value that does not fit.
fn read_wide_digits(v: &Vec<char>, from: usize) -> (r: Option<Wide>)
    requires
        from <= v.len(),
    ensures
        ({
            let body = v@.skip(from as int);
            let fits = body.len() > 0 && all_digits(body, 10) && numeral_value(body, 10)
                <= wide_max();
            match r {
                Some(w) => fits && w.value() == numeral_value(body, 10),
                None => !fits,
            }
        }),
{
    let ghost body = v@.skip(from as int);
    if from == v.len() {
        return None;
    }
    let mut acc = Wide { high: 0, low: 0 };
    let mut i: usize = from;
    assert(body.take(0) == Seq::<char>::empty());
    while i < v.len()
        invariant
            from <= i <= v.len(),
            body == v@.skip(from as int),
            all_digits(body.take(i - from), 10),
            acc.value() == numeral_value(body.take(i - from), 10),
        decreases v.len() - i,
    {
        let ghost k = i - from;
        assert(body.take(k + 1).drop_last() == body.take(k));
        assert(body.take(k + 1).last() == v@[i as int]);
        match to_digit(v[i], 10) {
            None => {
                assert(!is_digit(body[k], 10));
                return None;
            },
            Some(d) => {
                assert forall|j: int| 0 <= j < k + 1 implies is_digit(
                    #[trigger] body.take(k + 1)[j],
                    10,
                ) by {
                    if j < k {
                        assert(body.take(k + 1)[j] == body.take(k)[j]);
                    }
                }
                match times_ten_plus(acc, d) {
                    Some(next) => {
                        acc = next;
                    },
                    None => {
                        proof {
                            lemma_value_grows(body, 10, k + 1);
                        }
                        return None;
                    },
                }
            },
        }
        i += 1;
    }
    assert(body.take(v.len() - from) == body);
    Some(acc)
}

/// Reads `s` as an unsigned decimal number of 256 bits.
pub fn read_wide(s: &Vec<char>) -> (r: Option<Wide>)
    ensures
        match r {
            Some(w) => parse_unsigned(s@, 10, wide_max()) == Some(w.value()),
            None => parse_unsigned(s@, 10, wide_max()) is None,
        },
{
    let from: usize = if s.len() > 0 && s[0] == '+' {
        1
    } else {
        0
    };
    assert(s@.skip(0) == s@);
    read_wide_digits(s, from)
}

/// The unsigned number that stands for the signed number `v` in a word: `v`
/// itself where it is not negative, and two to the 256 plus `v` where it is.
pub open spec fn twos_complement(v: int) -> nat {
    if v >= 0 {
        v as nat
    } else {
        (word_modulus() + v) as nat
    }
}

/// Reads `s` as a signed decimal number of 256 bits, and gives it in two's
/// complement.
pub fn read_signed_wide(s: &Vec<char>) -> (r: Option<Wide>)
    ensures
        match r {
            Some(w) => parse_signed(s@, -signed_bound(), signed_bound() - 1) matches Some(v)
                && w.value() == twos_complement(v),
            None => parse_signed(s@, -signed_bound(), signed_bound() - 1) is None,
        },
{
    let negative = s.len() > 0 && s[0] == '-';
    let from: usize = if s.len() > 0 && (s[0] == '+' || s[0] == '-') {
        1
    } else {
        0
    };
    assert(s@.skip(0) == s@);
    let half: u128 = 0x8000_0000_0000_0000_0000_0000_0000_0000;
    match read_wide_digits(s, from) {
        None => None,
        Some(m) => {
            if !negative {
                if m.high < half {
                    Some(m)
                } else {
                    None
                }
            } else if m.high > half || (m.high == half && m.low != 0) {
                None
            } else if m.low == 0 {
                if m.high == 0 {
                    Some(m)
                } else {
                    Some(Wide { high: (u128::MAX - m.high) + 1, low: 0 })
                }
            } else {
                Some(Wide { high: u128::MAX - m.high, low: (u128::MAX - m.low) + 1 })
            }
        },
    }
}

/// The word of `w`: big-endian, right-aligned.
pub fn encode_wide(w: Wide) -> (r: Vec<u8>)
    ensures
        r@ == uint_word(w.value()),
        r.len() == 32,
{
    let mut out = write_be(w.high, 16);
    let tail = write_be(w.low, 16);
    append_bytes(&mut out, &tail);
    proof {
        lemma_pow256_values();
        lemma_be_bytes_split(w.high as nat, w.low as nat, 16, 16);
    }
    out
}

} // verus!
