//! Decimal rendering of the integer fields (timestamps, the mode-lock
//! bitmask) that appear in output lines.

use vstd::prelude::*;

verus! {

/// The decimal digit character for `d` (0 through 9).
pub open spec fn spec_digit(d: int) -> char {
    if d == 0 {
        '0'
    } else if d == 1 {
        '1'
    } else if d == 2 {
        '2'
    } else if d == 3 {
        '3'
    } else if d == 4 {
        '4'
    } else if d == 5 {
        '5'
    } else if d == 6 {
        '6'
    } else if d == 7 {
        '7'
    } else if d == 8 {
        '8'
    } else {
        '9'
    }
}

/// The decimal digit string of `n`, most significant digit first,
/// with no sign and no leading zero (except for `n == 0` itself).
pub open spec fn spec_u64_dec(n: nat) -> Seq<char>
    decreases n,
{
    if n < 10 {
        seq![spec_digit(n as int)]
    } else {
        spec_u64_dec(n / 10) + seq![spec_digit((n % 10) as int)]
    }
}

/// The decimal rendering of a signed value: a minus sign before the
/// digits of the magnitude when negative.
pub open spec fn spec_i64_dec(v: int) -> Seq<char> {
    if v < 0 {
        seq!['-'] + spec_u64_dec((-v) as nat)
    } else {
        spec_u64_dec(v as nat)
    }
}

fn digit_str(d: u64) -> (r: &'static str)
    requires
        d < 10,
    ensures
        r@ == seq![spec_digit(d as int)],
{
    proof {
        reveal_strlit("0");
        reveal_strlit("1");
        reveal_strlit("2");
        reveal_strlit("3");
        reveal_strlit("4");
        reveal_strlit("5");
        reveal_strlit("6");
        reveal_strlit("7");
        reveal_strlit("8");
        reveal_strlit("9");
    }
    let r = match d {
        0 => "0",
        1 => "1",
        2 => "2",
        3 => "3",
        4 => "4",
        5 => "5",
        6 => "6",
        7 => "7",
        8 => "8",
        _ => "9",
    };
    proof {
        assert(r@ =~= seq![spec_digit(d as int)]);
    }
    r
}

/// Renders `n` in decimal.
pub fn u64_dec(n: u64) -> (r: String)
    ensures
        r@ == spec_u64_dec(n as nat),
    decreases n,
{
    if n < 10 {
        String::from_str(digit_str(n))
    } else {
        let mut r = u64_dec(n / 10);
        r.append(digit_str(n % 10));
        r
    }
}

/// Renders `v` in decimal, with a leading minus sign when negative.
pub fn i64_dec(v: i64) -> (r: String)
    ensures
        r@ == spec_i64_dec(v as int),
{
    if v >= 0 {
        u64_dec(v as u64)
    } else {
        proof {
            reveal_strlit("-");
        }
        let m: u64 = ((-(v + 1)) as u64) + 1;
        let mut r = String::from_str("-");
        let digits = u64_dec(m);
        r.append(digits.as_str());
        proof {
            assert(r@ =~= spec_i64_dec(v as int));
        }
        r
    }
}

} // verus!
