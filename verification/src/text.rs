//! Decimal and hexadecimal renderings of integers, for messages and names.
use vstd::prelude::*;

verus! {

/// The character of the digit value `d` (0-15), with upper-case letters for 10-15.
pub open spec fn digit_char(d: nat) -> char {
    if d < 10 {
        (48 + d) as char
    } else {
        (55 + d) as char
    }
}

/// Decimal representation of `n`, most significant digit first, without leading zeros.
pub open spec fn decimal_digits(n: nat) -> Seq<char>
    decreases n,
{
    if n < 10 {
        seq![digit_char(n)]
    } else {
        decimal_digits(n / 10).push(digit_char(n % 10))
    }
}

/// Upper-case hexadecimal representation of `n`, left-padded with zeros to at least `width` digits.
pub open spec fn hex_digits(n: nat, width: nat) -> Seq<char>
    decreases n + width,
{
    if n < 16 && width <= 1 {
        seq![digit_char(n)]
    } else {
        hex_digits(n / 16, if width > 0 { (width - 1) as nat } else { 0 }).push(digit_char(n % 16))
    }
}

/// The one-character string of the digit value `d`.
fn digit_str(d: u8) -> (s: &'static str)
    requires
        d < 16,
    ensures
        s@ == seq![digit_char(d as nat)],
{
    proof {
        reveal_strlit("0");
        reveal_strlit("1");
        reveal_strlit("2");
        reveal_strlit("3");
        reveal_strlit("4");
        reveal_strlit("5");
        reveal_strlit("6");
        reveal_strlit("7");
        reveal_strlit("8");
        reveal_strlit("9");
        reveal_strlit("A");
        reveal_strlit("B");
        reveal_strlit("C");
        reveal_strlit("D");
        reveal_strlit("E");
        reveal_strlit("F");
    }
    match d {
        0 => "0",
        1 => "1",
        2 => "2",
        3 => "3",
        4 => "4",
        5 => "5",
        6 => "6",
        7 => "7",
        8 => "8",
        9 => "9",
        10 => "A",
        11 => "B",
        12 => "C",
        13 => "D",
        14 => "E",
        _ => "F",
    }
}

/// Renders `n` in decimal.
pub fn decimal_text(n: u64) -> (s: String)
    ensures
        s@ == decimal_digits(n as nat),
    decreases n,
{
    if n < 10 {
        String::from_str(digit_str(n as u8))
    } else {
        let mut s = decimal_text(n / 10);
        s.append(digit_str((n % 10) as u8));
        s
    }
}

/// Renders `n` in upper-case hexadecimal, zero-padded to at least `width` digits.
pub fn hex_text(n: u64, width: u64) -> (s: String)
    ensures
        s@ == hex_digits(n as nat, width as nat),
    decreases n + width,
{
    if n < 16 && width <= 1 {
        String::from_str(digit_str(n as u8))
    } else {
        let rest_width: u64 = if width > 0 { width - 1 } else { 0 };
        let mut s = hex_text(n / 16, rest_width);
        s.append(digit_str((n % 16) as u8));
        s
    }
}

} // verus!
