//! Decimal digit text: the value of a run of digit characters and the
//! canonical decimal rendering of a number.

use vstd::prelude::*;

verus! {

/// Whether `c` is a decimal digit character.
pub open spec fn is_digit_char(c: char) -> bool {
    48 <= c as int <= 57
}

/// The numeric value of a digit character.
pub open spec fn digit_val(c: char) -> nat {
    (c as int - 48) as nat
}

/// The digit character of a value below ten.
pub open spec fn digit_char(d: nat) -> char {
    if d == 0 {
        '0'
    } else if d == 1 {
        '1'
    } else if d == 2 {
        '2'
    } else if d == 3 {
        '3'
    } else if d == 4 {
        '4'
    } else if d == 5 {
        '5'
    } else if d == 6 {
        '6'
    } else if d == 7 {
        '7'
    } else if d == 8 {
        '8'
    } else {
        '9'
    }
}

/// Whether `t` is a non-empty run of decimal digit characters.
pub open spec fn is_number_token(t: Seq<char>) -> bool {
    t.len() > 0 && forall|i: int| 0 <= i < t.len() ==> is_digit_char(#[trigger] t[i])
}

/// The number that a run of digit characters denotes, most significant
/// digit first.
pub open spec fn digits_val(t: Seq<char>) -> nat
    decreases t.len(),
{
    if t.len() == 0 {
        0
    } else {
        digits_val(t.drop_last()) * 10 + digit_val(t.last())
    }
}

/// The canonical decimal rendering of `n`: no leading zeros, at least one
/// digit.
pub open spec fn dec_rep(n: nat) -> Seq<char>
    decreases n,
{
    if n < 10 {
        seq![digit_char(n)]
    } else {
        dec_rep(n / 10).push(digit_char(n % 10))
    }
}

/// The digit character of `d` is a digit, is not a space, and denotes `d`.
pub proof fn lemma_digit_char_val(d: nat)
    requires
        d < 10,
    ensures
        is_digit_char(digit_char(d)),
        digit_char(d) != ' ',
        digit_val(digit_char(d)) == d,
{
}

/// The canonical decimal rendering of `n` is a run of digits, free of
/// spaces, that denotes `n`.
pub proof fn lemma_dec_rep_val(n: nat)
    ensures
        is_number_token(dec_rep(n)),
        forall|i: int| 0 <= i < dec_rep(n).len() ==> #[trigger] dec_rep(n)[i] != ' ',
        digits_val(dec_rep(n)) == n,
    decreases n,
{
    if n < 10 {
        lemma_digit_char_val(n);
        assert(dec_rep(n) =~= seq![digit_char(n)]);
        assert(dec_rep(n).drop_last() =~= Seq::<char>::empty());
        assert(dec_rep(n).last() == digit_char(n));
        assert(digits_val(Seq::<char>::empty()) == 0);
        assert(digits_val(dec_rep(n)) == digits_val(dec_rep(n).drop_last()) * 10 + digit_val(
            dec_rep(n).last(),
        ));
    } else {
        lemma_dec_rep_val(n / 10);
        lemma_digit_char_val(n % 10);
        let rep = dec_rep(n / 10).push(digit_char(n % 10));
        assert(rep.drop_last() =~= dec_rep(n / 10));
        assert(rep.last() == digit_char(n % 10));
        assert(digits_val(rep) == (n / 10) * 10 + n % 10);
        assert(forall|i: int|
            0 <= i < rep.len() ==> is_digit_char(#[trigger] rep[i]) && rep[i] != ' ');
    }
}

/// The single-character string of a digit value.
pub fn digit_to_str(d: u8) -> (r: &'static str)
    requires
        d < 10,
    ensures
        r@ =~= seq![digit_char(d as nat)],
{
    proof {
        reveal_strlit("0");
        reveal_strlit("1");
        reveal_strlit("2");
        reveal_strlit("3");
        reveal_strlit("4");
        reveal_strlit("5");
        reveal_strlit("6");
        reveal_strlit("7");
        reveal_strlit("8");
        reveal_strlit("9");
    }
    match d {
        0 => "0",
        1 => "1",
        2 => "2",
        3 => "3",
        4 => "4",
        5 => "5",
        6 => "6",
        7 => "7",
        8 => "8",
        _ => "9",
    }
}

/// The canonical decimal rendering of a byte-sized number.
pub fn u8_to_string(n: u8) -> (r: String)
    ensures
        r@ == dec_rep(n as nat),
{
    if n < 10 {
        let r = String::from_str(digit_to_str(n));
        proof {
            assert(r@ =~= dec_rep(n as nat));
        }
        r
    } else if n < 100 {
        let mut r = String::from_str(digit_to_str(n / 10));
        r.append(digit_to_str(n % 10));
        proof {
            assert(dec_rep((n / 10) as nat) =~= seq![digit_char((n / 10) as nat)]);
            assert(r@ =~= dec_rep(n as nat));
        }
        r
    } else {
        let mut r = String::from_str(digit_to_str(n / 100));
        r.append(digit_to_str((n / 10) % 10));
        r.append(digit_to_str(n % 10));
        proof {
            vstd::arithmetic::div_mod::lemma_div_denominator(n as int, 10, 10);
            assert(((n as int / 10) / 10) == n as int / 100);
            assert(10 <= n / 10 < 100);
            assert(dec_rep((n / 100) as nat) =~= seq![digit_char((n / 100) as nat)]);
            assert(dec_rep((n / 10) as nat) =~= seq![
                digit_char((n / 100) as nat),
                digit_char(((n / 10) % 10) as nat),
            ]);
            assert(r@ =~= dec_rep(n as nat));
        }
        r
    }
}

} // verus!
