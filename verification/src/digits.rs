//! Decimal rendering of integers, used for the task-level memory value of a
//! run request, which the backend takes as a string.

use vstd::prelude::*;

verus! {

/// The decimal digit character for `d` in `0..10`.
pub open spec fn dec_digit(d: int) -> char {
    if d == 0 {
        '0'
    } else if d == 1 {
        '1'
    } else if d == 2 {
        '2'
    } else if d == 3 {
        '3'
    } else if d == 4 {
        '4'
    } else if d == 5 {
        '5'
    } else if d == 6 {
        '6'
    } else if d == 7 {
        '7'
    } else if d == 8 {
        '8'
    } else {
        '9'
    }
}

/// The decimal digit sequence of a non-negative `n`, most significant first,
/// with no leading zero except for `n == 0` itself.
pub open spec fn dec_nat(n: int) -> Seq<char>
    recommends
        n >= 0,
    decreases n,
{
    if n < 10 {
        seq![dec_digit(n)]
    } else {
        dec_nat(n / 10).push(dec_digit(n % 10))
    }
}

/// The decimal rendering of any integer: a leading minus sign when negative.
pub open spec fn dec_int(m: int) -> Seq<char> {
    if m < 0 {
        seq!['-'] + dec_nat(-m)
    } else {
        dec_nat(m)
    }
}

/// The one-character string for a digit.
fn digit_str(d: u64) -> (r: &'static str)
    requires
        d < 10,
    ensures
        r@ == seq![dec_digit(d as int)],
{
    proof {
        reveal_strlit("0");
        reveal_strlit("1");
        reveal_strlit("2");
        reveal_strlit("3");
        reveal_strlit("4");
        reveal_strlit("5");
        reveal_strlit("6");
        reveal_strlit("7");
        reveal_strlit("8");
        reveal_strlit("9");
    }
    let r: &'static str = if d == 0 {
        "0"
    } else if d == 1 {
        "1"
    } else if d == 2 {
        "2"
    } else if d == 3 {
        "3"
    } else if d == 4 {
        "4"
    } else if d == 5 {
        "5"
    } else if d == 6 {
        "6"
    } else if d == 7 {
        "7"
    } else if d == 8 {
        "8"
    } else {
        "9"
    };
    proof {
        assert(r@ =~= seq![dec_digit(d as int)]);
    }
    r
}

/// Renders a non-negative value in decimal.
pub fn dec_string_u64(n: u64) -> (r: String)
    ensures
        r@ == dec_nat(n as int),
    decreases n,
{
    if n < 10 {
        let r = digit_str(n).to_owned();
        proof {
            assert(r@ =~= dec_nat(n as int));
        }
        r
    } else {
        let mut r = dec_string_u64(n / 10);
        r.append(digit_str(n % 10));
        proof {
            assert(r@ =~= dec_nat(n as int));
        }
        r
    }
}

/// Renders any value in decimal, with a leading minus sign when negative.
pub fn dec_string_i64(m: i64) -> (r: String)
    ensures
        r@ == dec_int(m as int),
{
    if m >= 0 {
        let r = dec_string_u64(m as u64);
        r
    } else {
        let mag: u64 = ((-(m + 1)) as u64) + 1;
        proof {
            assert(mag as int == -(m as int));
        }
        let mut r = "-".to_owned();
        r.append(dec_string_u64(mag).as_str());
        proof {
            reveal_strlit("-");
            assert(r@ =~= dec_int(m as int));
        }
        r
    }
}

} // verus!
