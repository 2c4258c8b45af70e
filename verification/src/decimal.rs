//! Decimal rendering of small nonnegative integers.
//!
//! `dec_rep` is the specification of the usual decimal notation: most
//! significant digit first, no sign, no padding, no leading zeros.
//! `u8_dec_string` renders a byte against that specification, and
//! `lemma_dec_rep_round_trip` shows that the notation is faithful: reading
//! the digits back yields the number, and the digit string is well formed.

use vstd::prelude::*;

verus! {

/// The character for a single decimal digit.
pub open spec fn digit_char(d: int) -> char {
    if d == 0 {
        '0'
    } else if d == 1 {
        '1'
    } else if d == 2 {
        '2'
    } else if d == 3 {
        '3'
    } else if d == 4 {
        '4'
    } else if d == 5 {
        '5'
    } else if d == 6 {
        '6'
    } else if d == 7 {
        '7'
    } else if d == 8 {
        '8'
    } else {
        '9'
    }
}

/// Whether a character is one of the ten decimal digits.
pub open spec fn is_dec_digit(c: char) -> bool {
    c == '0' || c == '1' || c == '2' || c == '3' || c == '4' || c == '5' || c == '6' || c == '7'
        || c == '8' || c == '9'
}

/// The numeric value of a decimal digit character.
pub open spec fn digit_val(c: char) -> int {
    if c == '0' {
        0
    } else if c == '1' {
        1
    } else if c == '2' {
        2
    } else if c == '3' {
        3
    } else if c == '4' {
        4
    } else if c == '5' {
        5
    } else if c == '6' {
        6
    } else if c == '7' {
        7
    } else if c == '8' {
        8
    } else {
        9
    }
}

/// Decimal representation of a nonnegative integer: most significant digit
/// first, no sign, no leading zeros.
pub open spec fn dec_rep(n: int) -> Seq<char>
    recommends
        0 <= n,
    decreases n,
{
    if n < 10 {
        seq![digit_char(n)]
    } else {
        dec_rep(n / 10).push(digit_char(n % 10))
    }
}

/// The number denoted by a sequence of decimal digit characters.
pub open spec fn dec_val(s: Seq<char>) -> int
    decreases s.len(),
{
    if s.len() == 0 {
        0
    } else {
        dec_val(s.drop_last()) * 10 + digit_val(s.last())
    }
}

/// Decimal notation is faithful: the digit string of `n` is nonempty, holds
/// decimal digits only, has no leading zero, and denotes `n` itself.
pub proof fn lemma_dec_rep_round_trip(n: int)
    requires
        0 <= n,
    ensures
        dec_rep(n).len() >= 1,
        forall|i: int| 0 <= i < dec_rep(n).len() ==> is_dec_digit(#[trigger] dec_rep(n)[i]),
        n >= 1 ==> dec_rep(n)[0] != '0',
        dec_val(dec_rep(n)) == n,
    decreases n,
{
    if n < 10 {
        let s = dec_rep(n);
        assert(s =~= seq![digit_char(n)]);
        assert(s.last() == digit_char(n));
        assert(s.drop_last() =~= Seq::<char>::empty());
        assert(dec_val(Seq::<char>::empty()) == 0);
        assert(dec_val(s) == dec_val(s.drop_last()) * 10 + digit_val(s.last()));
        assert(digit_val(digit_char(n)) == n);
    } else {
        lemma_dec_rep_round_trip(n / 10);
        let s = dec_rep(n / 10);
        let full = dec_rep(n);
        assert(full == s.push(digit_char(n % 10)));
        assert(full.drop_last() =~= s);
        assert(full.last() == digit_char(n % 10));
        assert(dec_val(full) == dec_val(s) * 10 + digit_val(full.last()));
        assert(digit_val(digit_char(n % 10)) == n % 10);
        vstd::arithmetic::div_mod::lemma_fundamental_div_mod(n, 10);
        assert(n / 10 >= 1);
        assert(full[0] == s[0]);
        assert(forall|i: int| 0 <= i < full.len() ==> is_dec_digit(#[trigger] full[i])) by {
            assert(forall|i: int| 0 <= i < s.len() ==> is_dec_digit(#[trigger] s[i]));
        }
    }
}

/// The one-character string for a decimal digit.
fn digit_str(d: u8) -> (r: &'static str)
    requires
        d < 10,
    ensures
        r@ =~= seq![digit_char(d as int)],
{
    proof {
        reveal_strlit("0");
        reveal_strlit("1");
        reveal_strlit("2");
        reveal_strlit("3");
        reveal_strlit("4");
        reveal_strlit("5");
        reveal_strlit("6");
        reveal_strlit("7");
        reveal_strlit("8");
        reveal_strlit("9");
    }
    if d == 0 {
        "0"
    } else if d == 1 {
        "1"
    } else if d == 2 {
        "2"
    } else if d == 3 {
        "3"
    } else if d == 4 {
        "4"
    } else if d == 5 {
        "5"
    } else if d == 6 {
        "6"
    } else if d == 7 {
        "7"
    } else if d == 8 {
        "8"
    } else {
        "9"
    }
}

/// Render a byte in decimal notation.
pub fn u8_dec_string(n: u8) -> (r: String)
    ensures
        r@ == dec_rep(n as int),
{
    if n < 10 {
        let r = String::from_str(digit_str(n));
        proof {
            assert(r@ =~= dec_rep(n as int));
        }
        r
    } else if n < 100 {
        let mut r = String::from_str(digit_str(n / 10));
        r.append(digit_str(n % 10));
        proof {
            assert(dec_rep((n as int) / 10) =~= seq![digit_char((n as int) / 10)]);
            assert(r@ =~= dec_rep(n as int));
        }
        r
    } else {
        let mut r = String::from_str(digit_str(n / 100));
        r.append(digit_str((n / 10) % 10));
        r.append(digit_str(n % 10));
        proof {
            assert((n as int) / 10 / 10 == (n as int) / 100) by (nonlinear_arith);
            assert(dec_rep((n as int) / 100) =~= seq![digit_char((n as int) / 100)]);
            assert(dec_rep((n as int) / 10) =~= seq![digit_char((n as int) / 100)].push(
                digit_char(((n as int) / 10) % 10),
            ));
            assert(r@ =~= dec_rep(n as int));
        }
        r
    }
}

} // verus!
