//! Ratios rounded to the nearest whole number and written with a fixed
//! number of decimals.

use vstd::prelude::*;
use crate::text::{decimal, digit, digit_char, push_decimal};

verus! {

/// `num / den` rounded to the nearest whole number, a tie to the even one.
pub open spec fn rounded_ratio(num: nat, den: nat) -> nat
    recommends
        den > 0,
{
    let q = num / den;
    let r = num % den;
    if 2 * r > den || (2 * r == den && q % 2 == 1) {
        q + 1
    } else {
        q
    }
}

/// `num / den` rounded to the nearest whole number, a tie to the even one.
pub fn round_ratio(num: u128, den: u128) -> (q: u128)
    requires
        den > 0,
        den <= u64::MAX,
        num < u128::MAX,
    ensures
        q == rounded_ratio(num as nat, den as nat),
{
    let q = num / den;
    let r = num % den;
    if 2 * r > den || (2 * r == den && q % 2 == 1) {
        q + 1
    } else {
        q
    }
}

/// A number of hundredths written with two decimals.
pub open spec fn hundredths_text(h: nat) -> Seq<char> {
    decimal(h / 100).push('.').push(digit_char((h % 100) / 10)).push(digit_char(h % 10))
}

/// A number of tenths written with one decimal.
pub open spec fn tenths_text(t: nat) -> Seq<char> {
    decimal(t / 10).push('.').push(digit_char(t % 10))
}

/// Appends `h` hundredths, written with two decimals.
pub fn push_hundredths(s: &mut String, h: u64)
    ensures
        final(s)@ == old(s)@ + hundredths_text(h as nat),
{
    push_decimal(s, h / 100);
    s.push('.');
    let hi: u8 = ((h % 100) / 10) as u8;
    let lo: u8 = (h % 10) as u8;
    s.push(digit(hi));
    s.push(digit(lo));
    assert(final(s)@ =~= old(s)@ + hundredths_text(h as nat));
}

/// Appends `t` tenths, written with one decimal.
pub fn push_tenths(s: &mut String, t: u64)
    ensures
        final(s)@ == old(s)@ + tenths_text(t as nat),
{
    push_decimal(s, t / 10);
    s.push('.');
    let lo: u8 = (t % 10) as u8;
    s.push(digit(lo));
    assert(final(s)@ =~= old(s)@ + tenths_text(t as nat));
}

} // verus!
