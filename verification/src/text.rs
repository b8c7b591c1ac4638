//! Decimal text for the numbers the dashboard shows.
//!
//! Quantities are whole tenths and are written with exactly one digit after
//! the decimal point, always with a point, never with a thousands separator.

use vstd::prelude::*;
use vstd::string::*;

verus! {

/// The character of the decimal digit `d`.
pub open spec fn digit_char(d: int) -> char
    recommends
        0 <= d <= 9,
{
    if d == 0 {
        '0'
    } else if d == 1 {
        '1'
    } else if d == 2 {
        '2'
    } else if d == 3 {
        '3'
    } else if d == 4 {
        '4'
    } else if d == 5 {
        '5'
    } else if d == 6 {
        '6'
    } else if d == 7 {
        '7'
    } else if d == 8 {
        '8'
    } else {
        '9'
    }
}

/// The decimal digits of `n`, most significant first, without leading zeros;
/// zero is the single digit `0`.
pub open spec fn decimal_digits(n: nat) -> Seq<char>
    decreases n,
{
    if n < 10 {
        seq![digit_char(n as int)]
    } else {
        decimal_digits(n / 10).push(digit_char((n % 10) as int))
    }
}

/// A quantity of `magnitude` tenths, below zero if `negative`, written with
/// one digit after the point.
pub open spec fn fixed1_text(negative: bool, magnitude: nat) -> Seq<char> {
    let sign = if negative {
        seq!['-']
    } else {
        Seq::<char>::empty()
    };
    sign + decimal_digits(magnitude / 10) + seq!['.', digit_char((magnitude % 10) as int)]
}

/// The quantity of `tenths` tenths written with one digit after the point.
pub open spec fn tenths_text(tenths: int) -> Seq<char> {
    if tenths < 0 {
        fixed1_text(true, (-tenths) as nat)
    } else {
        fixed1_text(false, tenths as nat)
    }
}

/// The text of one decimal digit.
fn digit_str(d: u32) -> (text: &'static str)
    requires
        d <= 9,
    ensures
        text@ == seq![digit_char(d as int)],
{
    proof {
        reveal_strlit("0");
        reveal_strlit("1");
        reveal_strlit("2");
        reveal_strlit("3");
        reveal_strlit("4");
        reveal_strlit("5");
        reveal_strlit("6");
        reveal_strlit("7");
        reveal_strlit("8");
        reveal_strlit("9");
    }
    if d == 0 {
        "0"
    } else if d == 1 {
        "1"
    } else if d == 2 {
        "2"
    } else if d == 3 {
        "3"
    } else if d == 4 {
        "4"
    } else if d == 5 {
        "5"
    } else if d == 6 {
        "6"
    } else if d == 7 {
        "7"
    } else if d == 8 {
        "8"
    } else {
        "9"
    }
}

/// Appends the decimal digits of `n` to `out`.
pub fn append_decimal(out: &mut String, n: u32)
    ensures
        final(out)@ == old(out)@ + decimal_digits(n as nat),
    decreases n,
{
    if n >= 10 {
        append_decimal(out, n / 10);
    }
    out.append(digit_str(n % 10));
}

/// Appends a quantity of `magnitude` tenths, below zero if `negative`, with
/// one digit after the point.
pub fn append_fixed1(out: &mut String, negative: bool, magnitude: u32)
    ensures
        final(out)@ == old(out)@ + fixed1_text(negative, magnitude as nat),
{
    proof {
        reveal_strlit("-");
        reveal_strlit(".");
    }
    if negative {
        out.append("-");
    }
    append_decimal(out, magnitude / 10);
    out.append(".");
    out.append(digit_str(magnitude % 10));
}

/// Appends a quantity of `tenths` tenths with one digit after the point.
pub fn append_tenths(out: &mut String, tenths: i32)
    ensures
        final(out)@ == old(out)@ + tenths_text(tenths as int),
{
    if tenths < 0 {
        let wide: i64 = tenths as i64;
        let magnitude: u32 = (-wide) as u32;
        append_fixed1(out, true, magnitude);
    } else {
        append_fixed1(out, false, tenths as u32);
    }
}

} // verus!
