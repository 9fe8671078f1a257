//! Decimal digit strings: their mathematical reading and how to write them.

use vstd::prelude::*;

verus! {

/// A character in `'0'..='9'`.
pub open spec fn is_digit(c: char) -> bool {
    '0' <= c && c <= '9'
}

/// Every character of `s` is a decimal digit.
pub open spec fn all_digits(s: Seq<char>) -> bool {
    forall|i: int| 0 <= i < s.len() ==> is_digit(#[trigger] s[i])
}

/// The numeric value of a digit character.
pub open spec fn digit_value(c: char) -> int {
    c as u32 - '0' as u32
}

/// The digit character of a value in `0..10`.
pub open spec fn digit_char(v: int) -> char {
    if v == 0 {
        '0'
    } else if v == 1 {
        '1'
    } else if v == 2 {
        '2'
    } else if v == 3 {
        '3'
    } else if v == 4 {
        '4'
    } else if v == 5 {
        '5'
    } else if v == 6 {
        '6'
    } else if v == 7 {
        '7'
    } else if v == 8 {
        '8'
    } else {
        '9'
    }
}

/// `10` to the power `w`.
pub open spec fn pow10(w: nat) -> nat
    decreases w,
{
    if w == 0 {
        1
    } else {
        10 * pow10((w - 1) as nat)
    }
}

/// The last `w` decimal digits of `n`, most significant first: for `n < 10^w`
/// this is `n` written in decimal and left-padded with `'0'` to width `w`.
pub open spec fn padded_decimal(n: nat, w: nat) -> Seq<char>
    decreases w,
{
    if w == 0 {
        Seq::empty()
    } else {
        padded_decimal(n / 10, (w - 1) as nat).push(digit_char((n % 10) as int))
    }
}

pub proof fn lemma_padded_decimal_shape(n: nat, w: nat)
    ensures
        padded_decimal(n, w).len() == w,
        all_digits(padded_decimal(n, w)),
    decreases w,
{
    if w > 0 {
        lemma_padded_decimal_shape(n / 10, (w - 1) as nat);
    }
}

pub proof fn lemma_pow10_monotone(a: nat, b: nat)
    requires
        a <= b,
    ensures
        1 <= pow10(a) <= pow10(b),
    decreases b,
{
    if a < b {
        lemma_pow10_monotone(a, (b - 1) as nat);
    } else if a > 0 {
        lemma_pow10_monotone((a - 1) as nat, (a - 1) as nat);
    }
}

/// `10` to the power `w`, for the widths a publication code can have.
pub fn pow10_exec(w: usize) -> (r: u64)
    requires
        w <= 9,
    ensures
        r == pow10(w as nat),
{
    let mut r: u64 = 1;
    let mut k: usize = 0;
    while k < w
        invariant
            k <= w <= 9,
            r == pow10(k as nat),
        decreases w - k,
    {
        proof {
            reveal_with_fuel(pow10, 10);
            lemma_pow10_monotone((k + 1) as nat, 9);
            assert(pow10(9) == 1_000_000_000);
            assert(pow10((k + 1) as nat) == 10 * pow10(k as nat));
        }
        r = r * 10;
        k = k + 1;
    }
    r
}

/// Tells whether every character of `s` is a decimal digit.
pub fn is_digit_string(s: &String) -> (r: bool)
    ensures
        r == all_digits(s@),
{
    let n = s.as_str().unicode_len();
    let mut i: usize = 0;
    while i < n
        invariant
            i <= n,
            n == s@.len(),
            forall|j: int| 0 <= j < i ==> is_digit(#[trigger] s@[j]),
        decreases n - i,
    {
        let c = s.as_str().get_char(i);
        if !('0' <= c && c <= '9') {
            return false;
        }
        i = i + 1;
    }
    true
}

/// The number that the first `n` digits of `d` spell in decimal.
pub open spec fn decimal_value(d: Seq<char>, n: nat) -> nat
    decreases n,
{
    if n == 0 {
        0
    } else {
        (decimal_value(d, (n - 1) as nat) * 10 + digit_value(d[n - 1])) as nat
    }
}

/// A count written as a non-empty string of decimal digits that fits in a `u64`.
pub open spec fn count_of(d: Seq<char>) -> Option<u64> {
    if d.len() > 0 && all_digits(d) && decimal_value(d, d.len()) <= u64::MAX {
        Some(decimal_value(d, d.len()) as u64)
    } else {
        None
    }
}

/// Reading more digits never makes the number smaller.
pub proof fn lemma_decimal_value_monotone(d: Seq<char>, m: nat, n: nat)
    requires
        m <= n <= d.len(),
        all_digits(d),
    ensures
        decimal_value(d, m) <= decimal_value(d, n),
    decreases n,
{
    if m < n {
        lemma_decimal_value_monotone(d, m, (n - 1) as nat);
    }
}

/// Reads a count written in decimal digits.
pub fn parse_count(s: &String) -> (r: Option<u64>)
    ensures
        r == count_of(s@),
{
    let n = s.as_str().unicode_len();
    if n == 0 || !is_digit_string(s) {
        return None;
    }
    let mut v: u64 = 0;
    let mut i: usize = 0;
    while i < n
        invariant
            0 < n == s@.len(),
            all_digits(s@),
            i <= n,
            v == decimal_value(s@, i as nat),
        decreases n - i,
    {
        let d = char_to_digit(s.as_str().get_char(i));
        if v > (u64::MAX - d) / 10 {
            proof {
                lemma_decimal_value_monotone(s@, (i + 1) as nat, n as nat);
            }
            return None;
        }
        v = v * 10 + d;
        i = i + 1;
    }
    Some(v)
}

/// Relies on `String::push`: appends one character.
#[verifier::external_body]
pub(crate) fn push_char(s: &mut String, c: char)
    ensures
        final(s)@ == old(s)@.push(c),
{
    s.push(c)
}

/// The character of a digit value.
pub fn digit_to_char(v: u64) -> (c: char)
    requires
        v < 10,
    ensures
        c == digit_char(v as int),
        is_digit(c),
        digit_value(c) == v,
{
    if v == 0 {
        '0'
    } else if v == 1 {
        '1'
    } else if v == 2 {
        '2'
    } else if v == 3 {
        '3'
    } else if v == 4 {
        '4'
    } else if v == 5 {
        '5'
    } else if v == 6 {
        '6'
    } else if v == 7 {
        '7'
    } else if v == 8 {
        '8'
    } else {
        '9'
    }
}

/// The value of a digit character.
pub fn char_to_digit(c: char) -> (v: u64)
    requires
        is_digit(c),
    ensures
        v == digit_value(c),
        v < 10,
{
    (c as u32 - '0' as u32) as u64
}

/// Writes the last `width` decimal digits of `n`, left-padded with `'0'`.
pub fn format_padded(n: u64, width: usize) -> (r: String)
    ensures
        r@ == padded_decimal(n as nat, width as nat),
        r@.len() == width,
        all_digits(r@),
    decreases width,
{
    proof {
        lemma_padded_decimal_shape(n as nat, width as nat);
    }
    if width == 0 {
        String::new()
    } else {
        let mut r = format_padded(n / 10, width - 1);
        push_char(&mut r, digit_to_char(n % 10));
        r
    }
}

} // verus!
