//! Decimal rendering of unsigned numbers, used by every output line.

use vstd::prelude::*;

verus! {

/// The digit character for a value below ten.
pub open spec fn spec_digit(d: nat) -> char {
    if d == 0 {
        '0'
    } else if d == 1 {
        '1'
    } else if d == 2 {
        '2'
    } else if d == 3 {
        '3'
    } else if d == 4 {
        '4'
    } else if d == 5 {
        '5'
    } else if d == 6 {
        '6'
    } else if d == 7 {
        '7'
    } else if d == 8 {
        '8'
    } else {
        '9'
    }
}

/// The decimal rendering of a natural number, most significant digit first,
/// with no leading zeros (a single `'0'` for zero itself).
pub open spec fn spec_decimal(n: nat) -> Seq<char>
    decreases n,
{
    if n < 10 {
        seq![spec_digit(n)]
    } else {
        spec_decimal(n / 10) + seq![spec_digit(n % 10)]
    }
}

fn digit_str(d: u64) -> (r: &'static str)
    requires
        d < 10,
    ensures
        r@ == seq![spec_digit(d as nat)],
{
    let r: &'static str = match d {
        0 => "0",
        1 => "1",
        2 => "2",
        3 => "3",
        4 => "4",
        5 => "5",
        6 => "6",
        7 => "7",
        8 => "8",
        _ => "9",
    };
    proof {
        reveal_strlit("0");
        reveal_strlit("1");
        reveal_strlit("2");
        reveal_strlit("3");
        reveal_strlit("4");
        reveal_strlit("5");
        reveal_strlit("6");
        reveal_strlit("7");
        reveal_strlit("8");
        reveal_strlit("9");
        assert(r@ =~= seq![spec_digit(d as nat)]);
    }
    r
}

/// Renders a number in decimal, exactly as `spec_decimal` describes.
pub fn decimal_string(n: u64) -> (r: String)
    ensures
        r@ == spec_decimal(n as nat),
    decreases n,
{
    if n < 10 {
        String::from_str(digit_str(n))
    } else {
        let mut s = decimal_string(n / 10);
        s.append(digit_str(n % 10));
        s
    }
}

} // verus!
