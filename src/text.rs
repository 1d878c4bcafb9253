//! Zero-padded decimal rendering of the fields of dates and times.

use vstd::prelude::*;
use vstd::string::*;

verus! {

/// The decimal digit character for `d` (0 to 9).
pub open spec fn digit_char(d: int) -> char {
    seq!['0', '1', '2', '3', '4', '5', '6', '7', '8', '9'][d]
}

/// `n` (0 to 99) written with two decimal digits.
pub open spec fn two_digits(n: int) -> Seq<char> {
    seq![digit_char(n / 10), digit_char(n % 10)]
}

/// `n` (0 to 9999) written with four decimal digits.
pub open spec fn four_digits(n: int) -> Seq<char> {
    seq![digit_char(n / 1000), digit_char((n / 100) % 10), digit_char((n / 10) % 10), digit_char(n % 10)]
}

/// Returns the one-character string of the decimal digit `d`.
fn digit_str(d: u16) -> (r: &'static str)
    requires
        d < 10,
    ensures
        r@ == seq![digit_char(d as int)],
{
    proof {
        reveal_strlit("0");
        reveal_strlit("1");
        reveal_strlit("2");
        reveal_strlit("3");
        reveal_strlit("4");
        reveal_strlit("5");
        reveal_strlit("6");
        reveal_strlit("7");
        reveal_strlit("8");
        reveal_strlit("9");
    }
    match d {
        0 => "0",
        1 => "1",
        2 => "2",
        3 => "3",
        4 => "4",
        5 => "5",
        6 => "6",
        7 => "7",
        8 => "8",
        _ => "9",
    }
}

/// Appends `n` (0 to 99) written with two decimal digits.
pub fn push_two_digits(s: &mut String, n: u16)
    requires
        n < 100,
    ensures
        final(s)@ == old(s)@ + two_digits(n as int),
{
    s.append(digit_str(n / 10));
    s.append(digit_str(n % 10));
    assert(s@ =~= old(s)@ + two_digits(n as int));
}

/// Appends `n` (0 to 9999) written with four decimal digits.
pub fn push_four_digits(s: &mut String, n: u16)
    requires
        n < 10000,
    ensures
        final(s)@ == old(s)@ + four_digits(n as int),
{
    s.append(digit_str(n / 1000));
    s.append(digit_str((n / 100) % 10));
    s.append(digit_str((n / 10) % 10));
    s.append(digit_str(n % 10));
    assert(s@ =~= old(s)@ + four_digits(n as int));
}

} // verus!
