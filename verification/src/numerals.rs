//! Numbers as text: decimal and hexadecimal numerals, written and read.

use vstd::prelude::*;

verus! {

/// The character that stands for the digit `d` (lower case above nine).
pub open spec fn digit_char(d: int) -> char {
    if d == 0 {
        '0'
    } else if d == 1 {
        '1'
    } else if d == 2 {
        '2'
    } else if d == 3 {
        '3'
    } else if d == 4 {
        '4'
    } else if d == 5 {
        '5'
    } else if d == 6 {
        '6'
    } else if d == 7 {
        '7'
    } else if d == 8 {
        '8'
    } else if d == 9 {
        '9'
    } else if d == 10 {
        'a'
    } else if d == 11 {
        'b'
    } else if d == 12 {
        'c'
    } else if d == 13 {
        'd'
    } else if d == 14 {
        'e'
    } else {
        'f'
    }
}

/// The decimal numeral of `n`, most significant digit first, without leading
/// zeros; zero is written `0`.
pub open spec fn decimal(n: nat) -> Seq<char>
    decreases n,
{
    if n < 10 {
        seq![digit_char(n as int)]
    } else {
        decimal(n / 10).push(digit_char((n % 10) as int))
    }
}

/// The lower-case hexadecimal numeral of `n`, most significant digit first,
/// without leading zeros; zero is written `0`.
pub open spec fn hexadecimal(n: nat) -> Seq<char>
    decreases n,
{
    if n < 16 {
        seq![digit_char(n as int)]
    } else {
        hexadecimal(n / 16).push(digit_char((n % 16) as int))
    }
}

/// The decimal numeral of an integer: a minus sign before the numeral of the
/// magnitude where `v` is negative.
pub open spec fn signed_decimal(v: int) -> Seq<char> {
    if v < 0 {
        seq!['-'] + decimal((-v) as nat)
    } else {
        decimal(v as nat)
    }
}

/// The character that stands for the digit `d`.
pub fn digit_to_char(d: u8) -> (c: char)
    ensures
        c == digit_char(d as int),
{
    if d == 0 {
        '0'
    } else if d == 1 {
        '1'
    } else if d == 2 {
        '2'
    } else if d == 3 {
        '3'
    } else if d == 4 {
        '4'
    } else if d == 5 {
        '5'
    } else if d == 6 {
        '6'
    } else if d == 7 {
        '7'
    } else if d == 8 {
        '8'
    } else if d == 9 {
        '9'
    } else if d == 10 {
        'a'
    } else if d == 11 {
        'b'
    } else if d == 12 {
        'c'
    } else if d == 13 {
        'd'
    } else if d == 14 {
        'e'
    } else {
        'f'
    }
}

/// Writes the decimal numeral of `v`.
pub fn write_decimal(v: u128) -> (r: Vec<char>)
    ensures
        r@ == decimal(v as nat),
        r.len() >= 1,
{
    let mut out: Vec<char> = Vec::new();
    out.push(digit_to_char((v % 10) as u8));
    let mut rest: u128 = v / 10;
    while rest > 0
        invariant
            out.len() >= 1,
            decimal(v as nat) == (if rest == 0 {
                out@
            } else {
                decimal(rest as nat) + out@
            }),
        decreases rest,
    {
        let d = digit_to_char((rest % 10) as u8);
        out.insert(0, d);
        rest = rest / 10;
    }
    out
}

/// Writes the lower-case hexadecimal numeral of `v`.
pub fn write_hexadecimal(v: u128) -> (r: Vec<char>)
    ensures
        r@ == hexadecimal(v as nat),
        r.len() >= 1,
{
    let mut out: Vec<char> = Vec::new();
    out.push(digit_to_char((v % 16) as u8));
    let mut rest: u128 = v / 16;
    while rest > 0
        invariant
            out.len() >= 1,
            hexadecimal(v as nat) == (if rest == 0 {
                out@
            } else {
                hexadecimal(rest as nat) + out@
            }),
        decreases rest,
    {
        let d = digit_to_char((rest % 16) as u8);
        out.insert(0, d);
        rest = rest / 16;
    }
    out
}

/// The magnitude of `v`.
pub fn magnitude(v: i128) -> (r: u128)
    ensures
        r == (if v < 0 {
            -v
        } else {
            v as int
        }),
{
    if v < 0 {
        let m: i128 = -(v + 1);
        (m as u128) + 1
    } else {
        v as u128
    }
}

/// Writes the decimal numeral of the integer `v`.
pub fn write_signed_decimal(v: i128) -> (r: Vec<char>)
    ensures
        r@ == signed_decimal(v as int),
{
    let mut out = write_decimal(magnitude(v));
    if v < 0 {
        out.insert(0, '-');
    }
    out
}

/// The value of `c` read as a digit: `0` to `9`, then the letters of either
/// case from ten upwards.
pub open spec fn digit_value(c: char) -> Option<nat> {
    let n = c as u32;
    if 0x30 <= n <= 0x39 {
        Some((n - 0x30) as nat)
    } else if 0x61 <= n <= 0x7a {
        Some((n - 0x61 + 10) as nat)
    } else if 0x41 <= n <= 0x5a {
        Some((n - 0x41 + 10) as nat)
    } else {
        None
    }
}

/// `c` is a digit of base `base`.
pub open spec fn is_digit(c: char, base: nat) -> bool {
    digit_value(c) matches Some(d) && d < base
}

/// Every character of `s` is a digit of base `base`.
pub open spec fn all_digits(s: Seq<char>, base: nat) -> bool {
    forall|i: int| 0 <= i < s.len() ==> is_digit(#[trigger] s[i], base)
}

/// The number that the digits of `s` write in base `base`.
pub open spec fn numeral_value(s: Seq<char>, base: nat) -> nat
    decreases s.len(),
{
    if s.len() == 0 {
        0
    } else {
        numeral_value(s.drop_last(), base) * base + digit_value(s.last()).unwrap_or(0)
    }
}

/// What reading `s` as an unsigned number of base `base` no larger than `max`
/// gives: an optional `+`, then at least one digit and nothing else.
pub open spec fn parse_unsigned(s: Seq<char>, base: nat, max: nat) -> Option<nat> {
    let body = if s.len() > 0 && s[0] == '+' {
        s.skip(1)
    } else {
        s
    };
    if body.len() > 0 && all_digits(body, base) && numeral_value(body, base) <= max {
        Some(numeral_value(body, base))
    } else {
        None
    }
}

/// What reading `s` as a signed decimal number between `min` and `max` gives:
/// an optional `+` or `-`, then at least one digit and nothing else.
pub open spec fn parse_signed(s: Seq<char>, min: int, max: int) -> Option<int> {
    let negative = s.len() > 0 && s[0] == '-';
    let body = if s.len() > 0 && (s[0] == '+' || s[0] == '-') {
        s.skip(1)
    } else {
        s
    };
    let value = if negative {
        -(numeral_value(body, 10) as int)
    } else {
        numeral_value(body, 10) as int
    };
    if body.len() > 0 && all_digits(body, 10) && min <= value <= max {
        Some(value)
    } else {
        None
    }
}

/// The number that a prefix of a numeral writes is at most the number that
/// the whole numeral writes.
pub proof fn lemma_value_grows(s: Seq<char>, base: nat, i: int)
    requires
        0 <= i <= s.len(),
        base >= 1,
    ensures
        numeral_value(s.take(i), base) <= numeral_value(s, base),
    decreases s.len() - i,
{
    if i < s.len() {
        lemma_value_grows(s, base, i + 1);
        assert(s.take(i + 1).drop_last() == s.take(i));
        let v = numeral_value(s.take(i), base);
        assert(v * base >= v) by (nonlinear_arith)
            requires
                base >= 1,
                v >= 0,
        ;
    } else {
        assert(s.take(i) == s);
    }
}

/// Reads `c` as a digit of base `base`.
pub fn to_digit(c: char, base: u8) -> (r: Option<u8>)
    ensures
        match r {
            Some(d) => is_digit(c, base as nat) && digit_value(c) == Some(d as nat),
            None => !is_digit(c, base as nat),
        },
{
    let n: u32 = c as u32;
    let d: u32 = if 0x30 <= n && n <= 0x39 {
        n - 0x30
    } else if 0x61 <= n && n <= 0x7a {
        n - 0x61 + 10
    } else if 0x41 <= n && n <= 0x5a {
        n - 0x41 + 10
    } else {
        return None;
    };
    if d < base as u32 {
        Some(d as u8)
    } else {
        None
    }
}

/// Reads the digits of `v` from index `from` on as a number of base `base`;
/// `None` where there is no digit, a character that is no digit, or a value
/// above `max`.
fn read_digits(v: &Vec<char>, from: usize, base: u8, max: u128) -> (r: Option<u128>)
    requires
        from <= v.len(),
    ensures
        ({
            let body = v@.skip(from as int);
            r == (if body.len() > 0 && all_digits(body, base as nat) && numeral_value(
                body,
                base as nat,
            ) <= max {
                Some(numeral_value(body, base as nat) as u128)
            } else {
                None
            })
        }),
{
    let ghost body = v@.skip(from as int);
    if from == v.len() {
        return None;
    }
    let mut acc: u128 = 0;
    let mut i: usize = from;
    while i < v.len()
        invariant
            from <= i <= v.len(),
            body == v@.skip(from as int),
            all_digits(body.take(i - from), base as nat),
            acc == numeral_value(body.take(i - from), base as nat),
            acc <= max,
        decreases v.len() - i,
    {
        let ghost k = i - from;
        assert(body.take(k + 1).drop_last() == body.take(k));
        assert(body.take(k + 1).last() == v@[i as int]);
        match to_digit(v[i], base) {
            None => {
                return None;
            },
            Some(d) => {
                assert forall|j: int| 0 <= j < k + 1 implies is_digit(
                    #[trigger] body.take(k + 1)[j],
                    base as nat,
                ) by {
                    if j < k {
                        assert(body.take(k + 1)[j] == body.take(k)[j]);
                    }
                }
                let next = match acc.checked_mul(base as u128) {
                    Some(m) => m.checked_add(d as u128),
                    None => None,
                };
                match next {
                    Some(n) if n <= max => {
                        acc = n;
                    },
                    _ => {
                        proof {
                            lemma_value_grows(body, base as nat, k + 1);
                        }
                        return None;
                    },
                }
            },
        }
        i += 1;
    }
    assert(body.take(v.len() - from) == body);
    Some(acc)
}

/// Reads `s` as an unsigned number of base `base` that is at most `max`.
pub fn read_unsigned(s: &Vec<char>, base: u8, max: u128) -> (r: Option<u128>)
    ensures
        match r {
            Some(n) => parse_unsigned(s@, base as nat, max as nat) == Some(n as nat),
            None => parse_unsigned(s@, base as nat, max as nat) is None,
        },
{
    let from: usize = if s.len() > 0 && s[0] == '+' {
        1
    } else {
        0
    };
    assert(s@.skip(0) == s@);
    read_digits(s, from, base, max)
}

} // verus!
