//! Verified decimal string formatting: plain decimal digits, two-digit
//! zero padding, fixed two-decimal price cells rounded from thousandths,
//! and thousands-grouped volumes.

use vstd::prelude::*;
use vstd::string::StringExecFns;
use crate::quote::wf_price;

verus! {

/// The one-character string of a decimal digit; outside 0..=9 it collapses to '9'.
pub open spec fn digit_lit(d: int) -> Seq<char> {
    if d == 0 {
        "0"@
    } else if d == 1 {
        "1"@
    } else if d == 2 {
        "2"@
    } else if d == 3 {
        "3"@
    } else if d == 4 {
        "4"@
    } else if d == 5 {
        "5"@
    } else if d == 6 {
        "6"@
    } else if d == 7 {
        "7"@
    } else if d == 8 {
        "8"@
    } else {
        "9"@
    }
}

/// The decimal digit string of a natural number, most significant digit first.
pub open spec fn dec_str(n: nat) -> Seq<char>
    decreases n,
{
    if n < 10 {
        digit_lit(n as int)
    } else {
        dec_str(n / 10) + digit_lit((n % 10) as int)
    }
}

fn digit_str(d: u64) -> (r: &'static str)
    requires
        d < 10,
    ensures
        r@ == digit_lit(d as int),
{
    match d {
        0 => "0",
        1 => "1",
        2 => "2",
        3 => "3",
        4 => "4",
        5 => "5",
        6 => "6",
        7 => "7",
        8 => "8",
        _ => "9",
    }
}

/// Appends the decimal digits of `n` to `s`.
pub fn push_dec(s: &mut String, n: u64)
    ensures
        final(s)@ == old(s)@ + dec_str(n as nat),
    decreases n,
{
    if n >= 10 {
        push_dec(s, n / 10);
        s.append(digit_str(n % 10));
        assert(final(s)@ =~= old(s)@ + dec_str(n as nat));
    } else {
        s.append(digit_str(n));
    }
}

/// A number below 100 written with exactly two digits.
pub open spec fn pad2(n: int) -> Seq<char>
    recommends
        0 <= n < 100,
{
    if n < 10 {
        "0"@ + digit_lit(n)
    } else {
        dec_str(n as nat)
    }
}

/// Appends `n` as exactly two digits.
pub fn push_pad2(s: &mut String, n: u64)
    requires
        n < 100,
    ensures
        final(s)@ == old(s)@ + pad2(n as int),
{
    if n < 10 {
        s.append("0");
        s.append(digit_str(n));
        assert(final(s)@ =~= old(s)@ + pad2(n as int));
    } else {
        push_dec(s, n);
    }
}

/// Thousandths rounded to hundredths, half away from zero.
pub open spec fn centi_round(m: int) -> int {
    if m >= 0 {
        (m + 5) / 10
    } else {
        -((-m + 5) / 10)
    }
}

/// A non-negative count of hundredths written with two decimal places.
pub open spec fn centi_str(c: int) -> Seq<char>
    recommends
        c >= 0,
{
    dec_str((c / 100) as nat) + "."@ + pad2(c % 100)
}

/// A fixed-point price (thousandths) as a two-decimal cell, rounded half
/// away from zero; negative values carry a leading minus sign.
pub open spec fn price_cell(m: int) -> Seq<char> {
    if centi_round(m) < 0 {
        "-"@ + centi_str(-centi_round(m))
    } else {
        centi_str(centi_round(m))
    }
}

/// Formats a fixed-point price for a table or CSV price cell.
pub fn price_string(m: i64) -> (r: String)
    requires
        wf_price(m),
    ensures
        r@ == price_cell(m as int),
{
    let neg: bool = m < 0;
    let abs: u64 = if neg {
        (-m) as u64
    } else {
        m as u64
    };
    let c: u64 = (abs + 5) / 10;
    let mut s = String::new();
    if neg && c > 0 {
        s.append("-");
    }
    push_dec(&mut s, c / 100);
    s.append(".");
    push_pad2(&mut s, c % 100);
    proof {
        if neg {
            assert(centi_round(m as int) == -(c as int));
        } else {
            assert(centi_round(m as int) == c as int);
        }
        assert(s@ =~= price_cell(m as int));
    }
    s
}

/// A volume serialized for the CSV export: the integer digits with two
/// zero decimal places appended.
pub open spec fn volume_csv(v: u64) -> Seq<char> {
    dec_str(v as nat) + ".00"@
}

/// Formats a volume for a CSV field.
pub fn volume_csv_string(v: u64) -> (r: String)
    ensures
        r@ == volume_csv(v),
{
    let mut s = String::new();
    push_dec(&mut s, v);
    s.append(".00");
    s
}

/// A digit string with a comma inserted after every group of three digits,
/// counted from the right.
pub open spec fn grouped(s: Seq<char>) -> Seq<char>
    decreases s.len(),
{
    if s.len() <= 3 {
        s
    } else {
        grouped(s.take(s.len() - 3)) + ","@ + s.skip(s.len() - 3)
    }
}

/// Relies on num_format's `ToFormattedString` for `u64` with `Locale::en`:
/// the decimal digits of the number with a comma between three-digit groups,
/// counted from the right.
#[verifier::external_body]
pub(crate) fn volume_table_string(v: u64) -> (r: String)
    ensures
        r@ == grouped(dec_str(v as nat)),
{
    num_format::ToFormattedString::to_formatted_string(&v, &num_format::Locale::en)
}

} // verus!
