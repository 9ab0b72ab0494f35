//! Decimal rendering of the numbers that appear in file names and markup:
//! plain decimal, three-digit zero-padded page numbers, and lengths kept in
//! tenths of a unit (so `55` prints as `5.5` and `30` as `3`).
use vstd::prelude::*;
use vstd::string::*;

verus! {

/// The decimal digit character for `d` (meaningful for `d < 10`).
pub open spec fn digit_char(d: nat) -> char {
    if d == 0 {
        '0'
    } else if d == 1 {
        '1'
    } else if d == 2 {
        '2'
    } else if d == 3 {
        '3'
    } else if d == 4 {
        '4'
    } else if d == 5 {
        '5'
    } else if d == 6 {
        '6'
    } else if d == 7 {
        '7'
    } else if d == 8 {
        '8'
    } else {
        '9'
    }
}

/// The usual decimal numeral of `n`, most significant digit first, no sign,
/// no leading zeros (except for `0` itself).
pub open spec fn dec_str(n: nat) -> Seq<char>
    decreases n,
{
    if n < 10 {
        seq![digit_char(n)]
    } else {
        dec_str(n / 10) + seq![digit_char(n % 10)]
    }
}

/// The decimal numeral of `n` left-padded with zeros to at least three digits.
pub open spec fn padded3_str(n: nat) -> Seq<char> {
    if n >= 100 {
        dec_str(n)
    } else if n >= 10 {
        seq!['0'] + dec_str(n)
    } else {
        seq!['0', '0'] + dec_str(n)
    }
}

/// A length stored in tenths, printed as a decimal number: the integer part,
/// then `.d` only when the tenths digit `d` is not zero.
pub open spec fn tenths_str(t: nat) -> Seq<char> {
    if t % 10 == 0 {
        dec_str(t / 10)
    } else {
        dec_str(t / 10) + seq!['.'] + seq![digit_char(t % 10)]
    }
}

/// The one-character string for the decimal digit `d`.
fn digit_literal(d: u8) -> (r: &'static str)
    requires
        d < 10,
    ensures
        r@ == seq![digit_char(d as nat)],
{
    proof {
        reveal_strlit("0");
        reveal_strlit("1");
        reveal_strlit("2");
        reveal_strlit("3");
        reveal_strlit("4");
        reveal_strlit("5");
        reveal_strlit("6");
        reveal_strlit("7");
        reveal_strlit("8");
        reveal_strlit("9");
    }
    let r: &'static str = if d == 0 {
        "0"
    } else if d == 1 {
        "1"
    } else if d == 2 {
        "2"
    } else if d == 3 {
        "3"
    } else if d == 4 {
        "4"
    } else if d == 5 {
        "5"
    } else if d == 6 {
        "6"
    } else if d == 7 {
        "7"
    } else if d == 8 {
        "8"
    } else {
        "9"
    };
    proof {
        assert(r@ =~= seq![digit_char(d as nat)]);
    }
    r
}

/// Renders `n` as its decimal numeral.
pub fn usize_to_string(n: usize) -> (r: String)
    ensures
        r@ == dec_str(n as nat),
    decreases n,
{
    if n < 10 {
        let r = digit_literal(n as u8).to_owned();
        r
    } else {
        let mut r = usize_to_string(n / 10);
        r.append(digit_literal((n % 10) as u8));
        r
    }
}

/// Renders `n` as a decimal numeral of at least three digits, zero-padded.
pub fn padded3_string(n: usize) -> (r: String)
    ensures
        r@ == padded3_str(n as nat),
{
    if n >= 100 {
        usize_to_string(n)
    } else if n >= 10 {
        let mut r = "0".to_owned();
        r.append(usize_to_string(n).as_str());
        proof {
            reveal_strlit("0");
            assert(r@ =~= padded3_str(n as nat));
        }
        r
    } else {
        let mut r = "00".to_owned();
        r.append(usize_to_string(n).as_str());
        proof {
            reveal_strlit("00");
            assert(r@ =~= padded3_str(n as nat));
        }
        r
    }
}

/// Renders a length stored in tenths: `30` becomes `3`, `7` becomes `0.7`.
pub fn tenths_string(t: u32) -> (r: String)
    ensures
        r@ == tenths_str(t as nat),
{
    let whole = t / 10;
    let frac = t % 10;
    if frac == 0 {
        usize_to_string(whole as usize)
    } else {
        let mut r = usize_to_string(whole as usize);
        r.append(".");
        r.append(digit_literal(frac as u8));
        proof {
            reveal_strlit(".");
            assert(r@ =~= tenths_str(t as nat));
        }
        r
    }
}

} // verus!
