//! Verified decimal rendering of integers, used to build the deterministic
//! description strings of events.
use vstd::prelude::*;
use vstd::string::StringExecFns;

verus! {

/// The character for one decimal digit.
pub open spec fn dec_digit(d: int) -> char {
    if d == 0 {
        '0'
    } else if d == 1 {
        '1'
    } else if d == 2 {
        '2'
    } else if d == 3 {
        '3'
    } else if d == 4 {
        '4'
    } else if d == 5 {
        '5'
    } else if d == 6 {
        '6'
    } else if d == 7 {
        '7'
    } else if d == 8 {
        '8'
    } else {
        '9'
    }
}

/// The decimal digits of a nonnegative integer, most significant first.
pub open spec fn dec_nat(n: int) -> Seq<char>
    recommends
        n >= 0,
    decreases n,
{
    if n < 10 {
        seq![dec_digit(n)]
    } else {
        dec_nat(n / 10).push(dec_digit(n % 10))
    }
}

/// The decimal rendering of an integer: a minus sign for negative values,
/// then the digits of its magnitude.
pub open spec fn dec_int(n: int) -> Seq<char> {
    if n < 0 {
        seq!['-'] + dec_nat(-n)
    } else {
        dec_nat(n)
    }
}

/// Appends the decimal digits of `n` to `s`.
pub fn append_u32(s: &mut String, n: u32)
    ensures
        final(s)@ == old(s)@ + dec_nat(n as int),
    decreases n,
{
    if n >= 10 {
        append_u32(s, n / 10);
    }
    let d = n % 10;
    let digit: &str = match d {
        0 => "0",
        1 => "1",
        2 => "2",
        3 => "3",
        4 => "4",
        5 => "5",
        6 => "6",
        7 => "7",
        8 => "8",
        _ => "9",
    };
    proof {
        reveal_strlit("0");
        reveal_strlit("1");
        reveal_strlit("2");
        reveal_strlit("3");
        reveal_strlit("4");
        reveal_strlit("5");
        reveal_strlit("6");
        reveal_strlit("7");
        reveal_strlit("8");
        reveal_strlit("9");
        assert(digit@ =~= seq![dec_digit(d as int)]);
    }
    s.append(digit);
    proof {
        assert(s@ =~= old(s)@ + dec_nat(n as int));
    }
}

/// Appends the decimal rendering of `n` to `s`, minus sign included.
pub fn append_i32(s: &mut String, n: i32)
    ensures
        final(s)@ == old(s)@ + dec_int(n as int),
{
    if n >= 0 {
        append_u32(s, n as u32);
    } else {
        s.append("-");
        let m: u32 = (-(n as i64)) as u32;
        proof {
            assert(m as int == -(n as int));
        }
        append_u32(s, m);
        proof {
            reveal_strlit("-");
            assert(s@ =~= old(s)@ + dec_int(n as int));
        }
    }
}

} // verus!
