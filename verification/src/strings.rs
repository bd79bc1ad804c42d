//! Decimal and hexadecimal rendering of register indices, constants and
//! addresses, specified exactly as sequences of characters.

use vstd::prelude::*;
use vstd::string::StringExecFns;

verus! {

/// The single decimal digit `d` (0 to 9) as a one-character sequence.
pub open spec fn spec_dec_digit(d: nat) -> Seq<char> {
    if d == 0 {
        "0"@
    } else if d == 1 {
        "1"@
    } else if d == 2 {
        "2"@
    } else if d == 3 {
        "3"@
    } else if d == 4 {
        "4"@
    } else if d == 5 {
        "5"@
    } else if d == 6 {
        "6"@
    } else if d == 7 {
        "7"@
    } else if d == 8 {
        "8"@
    } else {
        "9"@
    }
}

/// The decimal rendering of `n`, most-significant digit first and without
/// leading zeroes (a sole zero renders as "0").
pub open spec fn spec_dec(n: nat) -> Seq<char>
    decreases n,
{
    if n < 10 {
        spec_dec_digit(n)
    } else {
        spec_dec(n / 10) + spec_dec_digit(n % 10)
    }
}

/// The single upper-case hexadecimal digit `d` (0 to 15).
pub open spec fn spec_hex_digit(d: nat) -> Seq<char> {
    if d < 10 {
        spec_dec_digit(d)
    } else if d == 10 {
        "A"@
    } else if d == 11 {
        "B"@
    } else if d == 12 {
        "C"@
    } else if d == 13 {
        "D"@
    } else if d == 14 {
        "E"@
    } else {
        "F"@
    }
}

/// The upper-case hexadecimal rendering of `n`, zero-padded on the left to at
/// least `width` digits (wider values keep all their digits).
pub open spec fn spec_hex(n: nat, width: nat) -> Seq<char>
    decreases n + width,
{
    if n < 16 && width <= 1 {
        spec_hex_digit(n)
    } else {
        spec_hex(n / 16, if width <= 1 { 0 } else { (width - 1) as nat }) + spec_hex_digit(
            n % 16,
        )
    }
}

fn dec_digit_str(d: u8) -> (r: &'static str)
    requires
        d < 10,
    ensures
        r@ == spec_dec_digit(d as nat),
{
    match d {
        0 => "0",
        1 => "1",
        2 => "2",
        3 => "3",
        4 => "4",
        5 => "5",
        6 => "6",
        7 => "7",
        8 => "8",
        _ => "9",
    }
}

fn hex_digit_str(d: u8) -> (r: &'static str)
    requires
        d < 16,
    ensures
        r@ == spec_hex_digit(d as nat),
{
    match d {
        10 => "A",
        11 => "B",
        12 => "C",
        13 => "D",
        14 => "E",
        15 => "F",
        _ => dec_digit_str(d),
    }
}

/// Renders `n` in decimal.
pub fn dec_string_u8(n: u8) -> (s: String)
    ensures
        s@ == spec_dec(n as nat),
    decreases n,
{
    if n < 10 {
        String::from_str(dec_digit_str(n))
    } else {
        let mut s = dec_string_u8(n / 10);
        s.append(dec_digit_str(n % 10));
        s
    }
}

/// Renders `n` in decimal.
pub fn dec_string_u32(n: u32) -> (s: String)
    ensures
        s@ == spec_dec(n as nat),
    decreases n,
{
    if n < 10 {
        String::from_str(dec_digit_str(n as u8))
    } else {
        let mut s = dec_string_u32(n / 10);
        s.append(dec_digit_str((n % 10) as u8));
        s
    }
}

/// Renders `n` in upper-case hexadecimal, zero-padded to at least `width`
/// digits.
pub fn hex_string_u32(n: u32, width: u8) -> (s: String)
    ensures
        s@ == spec_hex(n as nat, width as nat),
    decreases n + width,
{
    if n < 16 && width <= 1 {
        String::from_str(hex_digit_str(n as u8))
    } else {
        let mut s = hex_string_u32(n / 16, if width <= 1 {
            0
        } else {
            width - 1
        });
        s.append(hex_digit_str((n % 16) as u8));
        s
    }
}

} // verus!
