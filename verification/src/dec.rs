//! Signed decimal rendering of whole seconds, proved against a
//! character-sequence model of the usual base-ten notation.

use vstd::prelude::*;

verus! {

/// The character for one decimal digit.
pub open spec fn dec_digit(d: int) -> char {
    if d == 0 {
        '0'
    } else if d == 1 {
        '1'
    } else if d == 2 {
        '2'
    } else if d == 3 {
        '3'
    } else if d == 4 {
        '4'
    } else if d == 5 {
        '5'
    } else if d == 6 {
        '6'
    } else if d == 7 {
        '7'
    } else if d == 8 {
        '8'
    } else {
        '9'
    }
}

/// Base-ten notation of a non-negative number: most significant digit
/// first, no leading zeros except for the number zero itself.
pub open spec fn dec_rep(v: nat) -> Seq<char>
    decreases v,
{
    if v < 10 {
        seq![dec_digit(v as int)]
    } else {
        dec_rep(v / 10).push(dec_digit((v % 10) as int))
    }
}

/// Base-ten notation of a signed number: a minus sign before the
/// magnitude when it is negative.
pub open spec fn signed_dec_rep(v: int) -> Seq<char> {
    if v < 0 {
        seq!['-'] + dec_rep((-v) as nat)
    } else {
        dec_rep(v as nat)
    }
}

/// The one-character string for one decimal digit.
fn digit_str(d: u64) -> (r: &'static str)
    requires
        d < 10,
    ensures
        r@ == seq![dec_digit(d as int)],
{
    proof {
        reveal_strlit("0");
        reveal_strlit("1");
        reveal_strlit("2");
        reveal_strlit("3");
        reveal_strlit("4");
        reveal_strlit("5");
        reveal_strlit("6");
        reveal_strlit("7");
        reveal_strlit("8");
        reveal_strlit("9");
    }
    let r: &'static str = if d == 0 {
        "0"
    } else if d == 1 {
        "1"
    } else if d == 2 {
        "2"
    } else if d == 3 {
        "3"
    } else if d == 4 {
        "4"
    } else if d == 5 {
        "5"
    } else if d == 6 {
        "6"
    } else if d == 7 {
        "7"
    } else if d == 8 {
        "8"
    } else {
        "9"
    };
    proof {
        assert(r@ =~= seq![dec_digit(d as int)]);
    }
    r
}

/// Append the base-ten notation of `v` to `out`.
pub fn push_dec(v: u64, out: &mut String)
    ensures
        final(out)@ == old(out)@ + dec_rep(v as nat),
    decreases v,
{
    if v < 10 {
        out.append(digit_str(v));
        proof {
            assert(out@ =~= old(out)@ + dec_rep(v as nat));
        }
    } else {
        push_dec(v / 10, out);
        out.append(digit_str(v % 10));
        proof {
            assert(out@ =~= old(out)@ + dec_rep(v as nat));
        }
    }
}

/// The base-ten notation of a signed number, minus sign included.
pub fn signed_dec_string(v: i64) -> (r: String)
    ensures
        r@ == signed_dec_rep(v as int),
{
    let mut out = String::new();
    if v < 0 {
        out.append("-");
        proof {
            reveal_strlit("-");
            assert(out@ =~= seq!['-']);
        }
    }
    let mag: u64 = if v < 0 {
        (0i128 - (v as i128)) as u64
    } else {
        v as u64
    };
    proof {
        if v < 0 {
            assert(mag as int == -(v as int));
        }
    }
    push_dec(mag, &mut out);
    proof {
        assert(out@ =~= signed_dec_rep(v as int));
    }
    out
}

} // verus!
