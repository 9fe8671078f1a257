//! The weighted-sum check digits of ISBN-10 and ISBN-13, stated over digit sequences.

use vstd::prelude::*;
use crate::digits::{all_digits, digit_char, digit_value};

verus! {

/// Sum of the first `n` digits of `d`, the digit at index `i` weighted by `10 - i`.
pub open spec fn weighted_sum_10(d: Seq<char>, n: nat) -> int
    decreases n,
{
    if n == 0 {
        0
    } else {
        weighted_sum_10(d, (n - 1) as nat) + digit_value(d[n - 1]) * (10 - (n - 1))
    }
}

/// The ISBN-10 check character of the nine digits `d`.
pub open spec fn check_char_10(d: Seq<char>) -> char {
    let r = weighted_sum_10(d, d.len()) % 11;
    if r == 0 {
        '0'
    } else if r == 1 {
        'X'
    } else {
        digit_char(11 - r)
    }
}

/// The weight of the digit at index `i` in an ISBN-13: 1 at even indices, 3 at odd ones.
pub open spec fn weight_13(i: int) -> int {
    if i % 2 == 0 {
        1
    } else {
        3
    }
}

/// Sum of the first `n` digits of `d`, weighted alternately 1 and 3 from the left.
pub open spec fn weighted_sum_13(d: Seq<char>, n: nat) -> int
    decreases n,
{
    if n == 0 {
        0
    } else {
        weighted_sum_13(d, (n - 1) as nat) + digit_value(d[n - 1]) * weight_13(n - 1)
    }
}

/// The ISBN-13 check digit of the twelve digits `d`.
pub open spec fn check_char_13(d: Seq<char>) -> char {
    let r = weighted_sum_13(d, d.len()) % 10;
    if r == 0 {
        '0'
    } else {
        digit_char(10 - r)
    }
}

/// The ISBN-10 partial sums stay within `90 * n`.
pub proof fn lemma_weighted_sum_10_bounded(d: Seq<char>, n: nat)
    requires
        n <= d.len(),
        n <= 10,
        all_digits(d),
    ensures
        0 <= weighted_sum_10(d, n) <= 90 * n,
    decreases n,
{
    if n > 0 {
        lemma_weighted_sum_10_bounded(d, (n - 1) as nat);
        let v = digit_value(d[n - 1]);
        assert(0 <= v * (10 - (n - 1)) <= 90) by (nonlinear_arith)
            requires
                0 <= v <= 9,
                1 <= n <= 10,
        ;
    }
}

/// The ISBN-13 partial sums stay within `27 * n`.
pub proof fn lemma_weighted_sum_13_bounded(d: Seq<char>, n: nat)
    requires
        n <= d.len(),
        all_digits(d),
    ensures
        0 <= weighted_sum_13(d, n) <= 27 * n,
    decreases n,
{
    if n > 0 {
        lemma_weighted_sum_13_bounded(d, (n - 1) as nat);
    }
}

} // verus!
