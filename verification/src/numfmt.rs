use vstd::prelude::*;
use vstd::string::StringExecFns;

verus! {

/// The character for one decimal digit (digits ten and up never arise).
pub open spec fn digit_char(d: nat) -> char {
    if d == 0 {
        '0'
    } else if d == 1 {
        '1'
    } else if d == 2 {
        '2'
    } else if d == 3 {
        '3'
    } else if d == 4 {
        '4'
    } else if d == 5 {
        '5'
    } else if d == 6 {
        '6'
    } else if d == 7 {
        '7'
    } else if d == 8 {
        '8'
    } else {
        '9'
    }
}

/// The decimal digits of `n`, most significant first, without leading
/// zeros (a single '0' for zero itself).
pub open spec fn dec_str(n: nat) -> Seq<char>
    decreases n,
{
    if n < 10 {
        seq![digit_char(n)]
    } else {
        dec_str(n / 10).push(digit_char(n % 10))
    }
}

/// The track prefix of a file name: the decimal digits of `t`, left-padded
/// with '0' to at least two characters.
pub open spec fn padded_track(t: u32) -> Seq<char> {
    if t < 10 {
        seq!['0'] + dec_str(t as nat)
    } else {
        dec_str(t as nat)
    }
}

/// A decimal representation has at least one digit, and at least two from
/// ten upward.
pub proof fn lemma_dec_str_len(n: nat)
    ensures
        dec_str(n).len() >= 1,
        n >= 10 ==> dec_str(n).len() >= 2,
    decreases n,
{
    if n >= 10 {
        lemma_dec_str_len(n / 10);
    }
}

/// Law: the track prefix of a file name is always at least two characters
/// wide, whatever the track number.
pub proof fn lemma_padded_track_width(t: u32)
    ensures
        padded_track(t).len() >= 2,
{
    lemma_dec_str_len(t as nat);
}

/// The one-character string for a single decimal digit.
fn digit_str(d: u32) -> (r: &'static str)
    requires
        d < 10,
    ensures
        r@ == seq![digit_char(d as nat)],
{
    let r: &'static str = if d == 0 {
        "0"
    } else if d == 1 {
        "1"
    } else if d == 2 {
        "2"
    } else if d == 3 {
        "3"
    } else if d == 4 {
        "4"
    } else if d == 5 {
        "5"
    } else if d == 6 {
        "6"
    } else if d == 7 {
        "7"
    } else if d == 8 {
        "8"
    } else {
        "9"
    };
    proof {
        reveal_strlit("0");
        reveal_strlit("1");
        reveal_strlit("2");
        reveal_strlit("3");
        reveal_strlit("4");
        reveal_strlit("5");
        reveal_strlit("6");
        reveal_strlit("7");
        reveal_strlit("8");
        reveal_strlit("9");
        assert(r@ =~= seq![digit_char(d as nat)]);
    }
    r
}

/// The decimal digits of `n` as a string, as `format!("{}", n)` prints them.
pub fn decimal_string(n: u32) -> (r: String)
    ensures
        r@ == dec_str(n as nat),
    decreases n,
{
    if n < 10 {
        let r = digit_str(n).to_owned();
        r
    } else {
        let mut s = decimal_string(n / 10);
        s.append(digit_str(n % 10));
        proof {
            assert(s@ =~= dec_str(n as nat));
        }
        s
    }
}

/// The track prefix: `t` in decimal, left-padded with '0' to width two, as
/// `format!("{:0>2}", t)` prints it.
pub fn pad_track(t: u32) -> (r: String)
    ensures
        r@ == padded_track(t),
{
    if t < 10 {
        let mut s = "0".to_owned();
        s.append(decimal_string(t).as_str());
        proof {
            reveal_strlit("0");
            assert(s@ =~= padded_track(t));
        }
        s
    } else {
        decimal_string(t)
    }
}

} // verus!
