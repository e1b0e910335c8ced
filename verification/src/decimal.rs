//! Verified decimal rendering of integers, used to build endpoint paths and
//! calendar dates.

use vstd::prelude::*;
use vstd::string::StringExecFns;

verus! {

/// The character for one decimal digit.
pub open spec fn digit_char(d: nat) -> char {
    if d == 0 {
        '0'
    } else if d == 1 {
        '1'
    } else if d == 2 {
        '2'
    } else if d == 3 {
        '3'
    } else if d == 4 {
        '4'
    } else if d == 5 {
        '5'
    } else if d == 6 {
        '6'
    } else if d == 7 {
        '7'
    } else if d == 8 {
        '8'
    } else {
        '9'
    }
}

/// The decimal digits of `n`, most significant first, with no leading zeros
/// (a single `'0'` for zero).
pub open spec fn dec_of(n: nat) -> Seq<char>
    decreases n,
{
    if n < 10 {
        seq![digit_char(n)]
    } else {
        dec_of(n / 10) + seq![digit_char(n % 10)]
    }
}

/// The decimal digits of an integer, with a leading `'-'` when negative.
pub open spec fn dec_int_of(n: int) -> Seq<char> {
    if n < 0 {
        seq!['-'] + dec_of((-n) as nat)
    } else {
        dec_of(n as nat)
    }
}

/// The decimal digits of `n` left-padded with `'0'` to at least `w` characters.
pub open spec fn dec_pad(n: nat, w: nat) -> Seq<char> {
    if dec_of(n).len() >= w {
        dec_of(n)
    } else {
        Seq::new((w - dec_of(n).len()) as nat, |i: int| '0') + dec_of(n)
    }
}

/// A one-character string for the digit `d`.
fn digit_str(d: u64) -> (s: &'static str)
    requires
        d < 10,
    ensures
        s@ =~= seq![digit_char(d as nat)],
{
    proof {
        reveal_strlit("0");
        reveal_strlit("1");
        reveal_strlit("2");
        reveal_strlit("3");
        reveal_strlit("4");
        reveal_strlit("5");
        reveal_strlit("6");
        reveal_strlit("7");
        reveal_strlit("8");
        reveal_strlit("9");
    }
    if d == 0 {
        "0"
    } else if d == 1 {
        "1"
    } else if d == 2 {
        "2"
    } else if d == 3 {
        "3"
    } else if d == 4 {
        "4"
    } else if d == 5 {
        "5"
    } else if d == 6 {
        "6"
    } else if d == 7 {
        "7"
    } else if d == 8 {
        "8"
    } else {
        "9"
    }
}

/// Renders `n` in decimal.
pub fn u64_to_dec(n: u64) -> (s: String)
    ensures
        s@ == dec_of(n as nat),
    decreases n,
{
    let d = n % 10;
    let ds = digit_str(d);
    if n < 10 {
        ds.to_owned()
    } else {
        let mut s = u64_to_dec(n / 10);
        s.append(ds);
        s
    }
}

/// Renders `n` in decimal, with a `'-'` sign when negative.
pub fn i32_to_dec(n: i32) -> (s: String)
    ensures
        s@ == dec_int_of(n as int),
{
    if n >= 0 {
        u64_to_dec(n as u64)
    } else {
        let mag: i64 = -(n as i64);
        let mut s = "-".to_owned();
        let digits = u64_to_dec(mag as u64);
        s.append(digits.as_str());
        proof {
            reveal_strlit("-");
            assert(seq!['-'] =~= "-"@);
        }
        s
    }
}

/// How many decimal digits `n` has.
pub proof fn lemma_dec_of_len(n: nat)
    ensures
        n < 10 ==> dec_of(n).len() == 1,
        10 <= n < 100 ==> dec_of(n).len() == 2,
        100 <= n < 1000 ==> dec_of(n).len() == 3,
        1000 <= n < 10000 ==> dec_of(n).len() == 4,
        10000 <= n ==> dec_of(n).len() >= 5,
    decreases n,
{
    if n < 10 {
    } else if n < 100 {
        lemma_dec_of_len(n / 10);
    } else if n < 1000 {
        lemma_dec_of_len(n / 10);
    } else if n < 10000 {
        lemma_dec_of_len(n / 10);
    } else {
        lemma_dec_of_len(n / 10);
    }
}

/// Renders `n` in decimal, zero-padded to at least two digits.
pub fn u64_to_dec_pad2(n: u64) -> (s: String)
    ensures
        s@ == dec_pad(n as nat, 2),
{
    proof {
        lemma_dec_of_len(n as nat);
    }
    if n < 10 {
        let mut s = "0".to_owned();
        s.append(digit_str(n));
        proof {
            reveal_strlit("0");
            assert(s@ =~= dec_pad(n as nat, 2));
        }
        s
    } else {
        u64_to_dec(n)
    }
}

/// Renders `n` in decimal, zero-padded to at least four digits.
pub fn u64_to_dec_pad4(n: u64) -> (s: String)
    ensures
        s@ == dec_pad(n as nat, 4),
{
    proof {
        lemma_dec_of_len(n as nat);
        reveal_strlit("000");
        reveal_strlit("00");
        reveal_strlit("0");
    }
    if n < 10 {
        let mut s = "000".to_owned();
        s.append(digit_str(n));
        proof {
            assert(s@ =~= dec_pad(n as nat, 4));
        }
        s
    } else if n < 100 {
        let mut s = "00".to_owned();
        let digits = u64_to_dec(n);
        s.append(digits.as_str());
        proof {
            assert(s@ =~= dec_pad(n as nat, 4));
        }
        s
    } else if n < 1000 {
        let mut s = "0".to_owned();
        let digits = u64_to_dec(n);
        s.append(digits.as_str());
        proof {
            assert(s@ =~= dec_pad(n as nat, 4));
        }
        s
    } else {
        u64_to_dec(n)
    }
}

} // verus!
