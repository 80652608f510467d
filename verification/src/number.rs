//! Integer literals: the value of a run of digits in a radix, and a parser
//! that computes it without overflow.

use vstd::prelude::*;
use vstd::std_specs::iter::IteratorSpec;

use crate::chars::{digit_value, is_hex_digit, spec_digit_value, spec_is_hex_digit};

verus! {

/// The number that `digits` denotes in base `radix`, most significant digit
/// first.
pub open spec fn radix_value(digits: Seq<char>, radix: int) -> int
    decreases digits.len(),
{
    if digits.len() == 0 {
        0
    } else {
        radix_value(digits.drop_last(), radix) * radix + spec_digit_value(digits.last())
    }
}

/// Whether every character of `digits` is a digit of base `radix`.
pub open spec fn in_radix(digits: Seq<char>, radix: int) -> bool {
    forall|i: int|
        0 <= i < digits.len() ==> spec_is_hex_digit(#[trigger] digits[i]) && spec_digit_value(
            digits[i],
        ) < radix
}

/// The value of a literal: `digits` read in base `radix`, provided that they
/// are digits of that base, at least one, and that the value fits in an
/// `i32`.
pub open spec fn spec_parse_radix(digits: Seq<char>, radix: int) -> Option<int> {
    if digits.len() > 0 && in_radix(digits, radix) && radix_value(digits, radix) <= i32::MAX {
        Some(radix_value(digits, radix))
    } else {
        None
    }
}

/// Appending a digit multiplies by the radix and adds the digit.
pub proof fn lemma_radix_value_push(digits: Seq<char>, d: char, radix: int)
    ensures
        radix_value(digits.push(d), radix) == radix_value(digits, radix) * radix
            + spec_digit_value(d),
{
    assert(digits.push(d).drop_last() =~= digits);
}

/// A run of digits denotes at least as much as any of its prefixes, and
/// nothing negative.
pub proof fn lemma_radix_value_prefix(digits: Seq<char>, radix: int, k: int)
    requires
        radix >= 1,
        in_radix(digits, radix),
        0 <= k <= digits.len(),
    ensures
        0 <= radix_value(digits.take(k), radix) <= radix_value(digits, radix),
    decreases digits.len() - k,
{
    if k == digits.len() {
        assert(digits.take(k) =~= digits);
        lemma_radix_value_nonnegative(digits, radix);
    } else {
        lemma_radix_value_prefix(digits, radix, k + 1);
        assert(digits.take(k + 1) =~= digits.take(k).push(digits[k]));
        lemma_radix_value_push(digits.take(k), digits[k], radix);
        lemma_radix_value_nonnegative(digits.take(k), radix);
        let v = radix_value(digits.take(k), radix);
        assert(v * radix >= v) by (nonlinear_arith)
            requires
                v >= 0,
                radix >= 1,
        ;
    }
}

/// A run of digits denotes nothing negative.
pub proof fn lemma_radix_value_nonnegative(digits: Seq<char>, radix: int)
    requires
        radix >= 1,
        forall|i: int| 0 <= i < digits.len() ==> spec_is_hex_digit(#[trigger] digits[i]),
    ensures
        0 <= radix_value(digits, radix),
    decreases digits.len(),
{
    if digits.len() > 0 {
        lemma_radix_value_nonnegative(digits.drop_last(), radix);
        let v = radix_value(digits.drop_last(), radix);
        assert(v * radix >= 0) by (nonlinear_arith)
            requires
                v >= 0,
                radix >= 1,
        ;
    }
}

/// Reads `text` as a number in base `radix`. Fails where a character is no
/// digit of that base, where there is no digit at all, and where the value
/// does not fit in an `i32`.
pub fn parse_radix(text: &str, radix: u32) -> (parsed: Option<i32>)
    requires
        2 <= radix <= 16,
    ensures
        match parsed {
            Some(v) => spec_parse_radix(text@, radix as int) == Some(v as int),
            None => spec_parse_radix(text@, radix as int) is None,
        },
{
    let mut rest = text.chars();
    let mut value: i64 = 0;
    let mut empty = true;
    let ghost mut seen: int = 0;
    loop
        invariant
            2 <= radix <= 16,
            0 <= seen <= text@.len(),
            empty <==> seen == 0,
            rest.remaining() == text@.skip(seen),
            in_radix(text@.take(seen), radix as int),
            value == radix_value(text@.take(seen), radix as int),
            0 <= value <= i32::MAX,
        decreases text@.len() - seen,
    {
        match rest.next() {
            None => {
                proof {
                    assert(text@.take(seen) =~= text@);
                }
                if empty {
                    return None;
                }
                return Some(value as i32);
            },
            Some(c) => {
                if !is_hex_digit(c) {
                    return None;
                }
                let d = digit_value(c);
                if d >= radix {
                    return None;
                }
                assert(0 <= value * (radix as i64) <= 0x8_0000_0000) by (nonlinear_arith)
                    requires
                        0 <= value <= i32::MAX,
                        2 <= radix <= 16,
                ;
                let next = value * (radix as i64) + (d as i64);
                proof {
                    assert(text@.take(seen + 1) =~= text@.take(seen).push(c));
                    lemma_radix_value_push(text@.take(seen), c, radix as int);
                }
                if next > i32::MAX as i64 {
                    proof {
                        if in_radix(text@, radix as int) {
                            lemma_radix_value_prefix(text@, radix as int, seen + 1);
                        }
                    }
                    return None;
                }
                value = next;
                empty = false;
                proof {
                    seen = seen + 1;
                }
            },
        }
    }
}

} // verus!
