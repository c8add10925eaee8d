//! Decimal rendering of integers: the spec-level decimal string of an
//! integer, and a verified renderer for `i64` values.

use vstd::prelude::*;
use vstd::string::StringExecFns;

verus! {

/// The character for a single decimal digit.
pub open spec fn digit_char(d: int) -> char {
    if d == 0 {
        '0'
    } else if d == 1 {
        '1'
    } else if d == 2 {
        '2'
    } else if d == 3 {
        '3'
    } else if d == 4 {
        '4'
    } else if d == 5 {
        '5'
    } else if d == 6 {
        '6'
    } else if d == 7 {
        '7'
    } else if d == 8 {
        '8'
    } else {
        '9'
    }
}

/// The decimal digit string of a natural number, without a sign and
/// without leading zeros (except for `0` itself, which is `"0"`).
pub open spec fn dec_str(n: nat) -> Seq<char>
    decreases n,
{
    if n < 10 {
        seq![digit_char(n as int)]
    } else {
        dec_str(n / 10) + seq![digit_char((n % 10) as int)]
    }
}

/// The decimal string of an integer: a leading `-` for negative values,
/// followed by the digits of the magnitude.
pub open spec fn int_str(n: int) -> Seq<char> {
    if n < 0 {
        seq!['-'] + dec_str((-n) as nat)
    } else {
        dec_str(n as nat)
    }
}

/// The one-character string for a decimal digit.
fn digit_to_str(d: u8) -> (r: &'static str)
    requires
        d < 10,
    ensures
        r@ == seq![digit_char(d as int)],
{
    let r: &'static str = if d == 0 {
        "0"
    } else if d == 1 {
        "1"
    } else if d == 2 {
        "2"
    } else if d == 3 {
        "3"
    } else if d == 4 {
        "4"
    } else if d == 5 {
        "5"
    } else if d == 6 {
        "6"
    } else if d == 7 {
        "7"
    } else if d == 8 {
        "8"
    } else {
        "9"
    };
    proof {
        reveal_strlit("0");
        reveal_strlit("1");
        reveal_strlit("2");
        reveal_strlit("3");
        reveal_strlit("4");
        reveal_strlit("5");
        reveal_strlit("6");
        reveal_strlit("7");
        reveal_strlit("8");
        reveal_strlit("9");
        assert(r@ =~= seq![digit_char(d as int)]);
    }
    r
}

/// Appends the decimal digits of `v` to `out`.
fn push_dec(out: &mut String, v: u64)
    ensures
        final(out)@ == old(out)@ + dec_str(v as nat),
    decreases v,
{
    if v < 10 {
        out.append(digit_to_str(v as u8));
    } else {
        push_dec(out, v / 10);
        out.append(digit_to_str((v % 10) as u8));
        proof {
            assert(out@ =~= old(out)@ + dec_str(v as nat));
        }
    }
}

/// Renders a signed 64-bit integer as its decimal string.
pub fn i64_to_string(n: i64) -> (r: String)
    ensures
        r@ == int_str(n as int),
{
    let mut out = String::new();
    let mag: u64 = if n >= 0 {
        n as u64
    } else {
        out.append("-");
        ((-(n + 1)) as u64) + 1
    };
    proof {
        reveal_strlit("-");
        if n < 0 {
            assert(out@ =~= seq!['-']);
        }
    }
    push_dec(&mut out, mag);
    proof {
        if n < 0 {
            assert(out@ =~= int_str(n as int));
        }
    }
    out
}

} // verus!
