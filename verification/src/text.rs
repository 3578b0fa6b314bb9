//! Decimal text rendering: zero-padded two-digit fields for the clock face
//! and plain decimal numbers for the measurement panel.

use vstd::prelude::*;
use vstd::string::StringExecFns;

verus! {

/// The character for one decimal digit.
pub open spec fn digit_char(d: u8) -> char
    recommends
        d < 10,
{
    if d == 0 { '0' }
    else if d == 1 { '1' }
    else if d == 2 { '2' }
    else if d == 3 { '3' }
    else if d == 4 { '4' }
    else if d == 5 { '5' }
    else if d == 6 { '6' }
    else if d == 7 { '7' }
    else if d == 8 { '8' }
    else { '9' }
}

/// A two-digit-wide number, padded with a leading zero below ten.
pub open spec fn spec_two_digits(n: u8) -> Seq<char>
    recommends
        n < 100,
{
    seq![digit_char((n / 10) % 10), digit_char(n % 10)]
}

/// The plain decimal rendering of a number, without leading zeros.
pub open spec fn spec_decimal(n: u32) -> Seq<char>
    decreases n,
{
    if n < 10 {
        seq![digit_char(n as u8)]
    } else {
        spec_decimal(n / 10) + seq![digit_char((n % 10) as u8)]
    }
}

/// A single decimal digit as a string slice.
fn digit_str(d: u8) -> (r: &'static str)
    requires
        d < 10,
    ensures
        r@ == seq![digit_char(d)],
{
    if d == 0 { proof { reveal_strlit("0"); } "0" }
    else if d == 1 { proof { reveal_strlit("1"); } "1" }
    else if d == 2 { proof { reveal_strlit("2"); } "2" }
    else if d == 3 { proof { reveal_strlit("3"); } "3" }
    else if d == 4 { proof { reveal_strlit("4"); } "4" }
    else if d == 5 { proof { reveal_strlit("5"); } "5" }
    else if d == 6 { proof { reveal_strlit("6"); } "6" }
    else if d == 7 { proof { reveal_strlit("7"); } "7" }
    else if d == 8 { proof { reveal_strlit("8"); } "8" }
    else { proof { reveal_strlit("9"); } "9" }
}

/// Render a number below one hundred as exactly two decimal digits,
/// padding with a leading zero.
pub fn zero_pad(num: u8) -> (r: String)
    requires
        num < 100,
    ensures
        r@ == spec_two_digits(num),
{
    let mut r = String::new();
    r.append(digit_str(num / 10));
    r.append(digit_str(num % 10));
    r
}

/// Render a number in plain decimal, without leading zeros.
pub fn decimal(n: u32) -> (r: String)
    ensures
        r@ == spec_decimal(n),
    decreases n,
{
    if n < 10 {
        let mut r = String::new();
        r.append(digit_str(n as u8));
        r
    } else {
        let mut r = decimal(n / 10);
        r.append(digit_str((n % 10) as u8));
        r
    }
}

} // verus!
