//! Rendering numbers as text.
//!
//! The protocol carries a few numbers as decimal strings, and error messages
//! name offending values. Both go through the functions here, whose results
//! are pinned down character by character.

use vstd::prelude::*;
use vstd::string::*;

verus! {

/// The character for a digit below sixteen: `0`-`9`, then `a`-`f`.
pub open spec fn digit_char(d: int) -> char
    recommends
        0 <= d < 16,
{
    if d < 10 {
        (('0' as u8) + d) as char
    } else {
        (('a' as u8) + d - 10) as char
    }
}

/// The decimal rendering of a natural number, without leading zeros; zero
/// is written `0`.
pub open spec fn decimal(n: nat) -> Seq<char>
    decreases n,
{
    if n < 10 {
        seq![digit_char(n as int)]
    } else {
        decimal(n / 10).push(digit_char((n % 10) as int))
    }
}

/// The decimal rendering of an integer, with a leading `-` when negative.
pub open spec fn signed_decimal(n: int) -> Seq<char> {
    if n < 0 {
        seq!['-'] + decimal((-n) as nat)
    } else {
        decimal(n as nat)
    }
}

/// The rendering `0x..` of a byte in lowercase hexadecimal, without leading
/// zeros.
pub open spec fn prefixed_hex(n: u8) -> Seq<char> {
    if n < 16 {
        seq!['0', 'x', digit_char(n as int)]
    } else {
        seq!['0', 'x', digit_char(n as int / 16), digit_char(n as int % 16)]
    }
}

/// The one-character string for a digit below sixteen.
fn digit_str(d: u64) -> (s: &'static str)
    requires
        d < 16,
    ensures
        s@ == seq![digit_char(d as int)],
{
    proof {
        reveal_strlit("0");
        reveal_strlit("1");
        reveal_strlit("2");
        reveal_strlit("3");
        reveal_strlit("4");
        reveal_strlit("5");
        reveal_strlit("6");
        reveal_strlit("7");
        reveal_strlit("8");
        reveal_strlit("9");
        reveal_strlit("a");
        reveal_strlit("b");
        reveal_strlit("c");
        reveal_strlit("d");
        reveal_strlit("e");
        reveal_strlit("f");
    }
    let s = match d {
        0 => "0",
        1 => "1",
        2 => "2",
        3 => "3",
        4 => "4",
        5 => "5",
        6 => "6",
        7 => "7",
        8 => "8",
        9 => "9",
        10 => "a",
        11 => "b",
        12 => "c",
        13 => "d",
        14 => "e",
        _ => "f",
    };
    assert(s@ =~= seq![digit_char(d as int)]);
    s
}

/// Appends the decimal digits of `n` to `out`.
fn push_decimal(out: &mut String, n: u64)
    ensures
        final(out)@ == old(out)@ + decimal(n as nat),
    decreases n,
{
    if n < 10 {
        out.append(digit_str(n));
    } else {
        push_decimal(out, n / 10);
        out.append(digit_str(n % 10));
    }
}

/// Renders `n` in decimal.
pub fn decimal_string(n: u64) -> (s: String)
    ensures
        s@ == decimal(n as nat),
{
    let mut s = String::new();
    push_decimal(&mut s, n);
    s
}

/// Renders `n` in decimal, with a leading `-` when negative.
pub fn signed_decimal_string(n: i64) -> (s: String)
    ensures
        s@ == signed_decimal(n as int),
{
    let mut s = String::new();
    if n < 0 {
        proof {
            reveal_strlit("-");
        }
        s.append("-");
        // The magnitude of `i64::MIN` does not fit in an `i64`.
        let magnitude: u64 = if n == i64::MIN {
            0x8000_0000_0000_0000
        } else {
            (-n) as u64
        };
        push_decimal(&mut s, magnitude);
    } else {
        push_decimal(&mut s, n as u64);
    }
    s
}

/// Renders a byte as `0x` followed by its lowercase hexadecimal digits.
pub fn prefixed_hex_string(n: u8) -> (s: String)
    ensures
        s@ == prefixed_hex(n),
{
    proof {
        reveal_strlit("0x");
    }
    let mut s = String::from_str("0x");
    if n >= 16 {
        s.append(digit_str((n / 16) as u64));
    }
    s.append(digit_str((n % 16) as u64));
    assert(s@ =~= prefixed_hex(n));
    s
}

} // verus!
