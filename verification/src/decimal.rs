//! Decimal rendering of unsigned integers, used for task identifiers,
//! build numbers and error messages.

use vstd::prelude::*;

verus! {

/// The character for a single decimal digit.
pub open spec fn digit_char(d: nat) -> char {
    if d == 0 {
        '0'
    } else if d == 1 {
        '1'
    } else if d == 2 {
        '2'
    } else if d == 3 {
        '3'
    } else if d == 4 {
        '4'
    } else if d == 5 {
        '5'
    } else if d == 6 {
        '6'
    } else if d == 7 {
        '7'
    } else if d == 8 {
        '8'
    } else {
        '9'
    }
}

/// The numeric value of a decimal digit character; non-digits map to 9.
pub open spec fn char_digit(c: char) -> nat {
    if c == '0' {
        0
    } else if c == '1' {
        1
    } else if c == '2' {
        2
    } else if c == '3' {
        3
    } else if c == '4' {
        4
    } else if c == '5' {
        5
    } else if c == '6' {
        6
    } else if c == '7' {
        7
    } else if c == '8' {
        8
    } else {
        9
    }
}

/// The decimal rendering of `n`, without leading zeros.
pub open spec fn dec_digits(n: nat) -> Seq<char>
    decreases n,
{
    if n < 10 {
        seq![digit_char(n)]
    } else {
        dec_digits(n / 10).push(digit_char(n % 10))
    }
}

/// The value a sequence of digit characters denotes.
pub open spec fn dec_val(s: Seq<char>) -> nat
    decreases s.len(),
{
    if s.len() == 0 {
        0
    } else {
        dec_val(s.drop_last()) * 10 + char_digit(s.last())
    }
}

/// Reading back a rendered number yields the number: rendering is injective.
pub proof fn lemma_dec_digits_val(n: nat)
    ensures
        dec_val(dec_digits(n)) == n,
    decreases n,
{
    if n < 10 {
        assert(dec_digits(n).drop_last() =~= Seq::<char>::empty());
        assert(char_digit(digit_char(n)) == n);
        assert(dec_val(dec_digits(n)) == dec_val(dec_digits(n).drop_last()) * 10 + char_digit(
            dec_digits(n).last(),
        ));
    } else {
        lemma_dec_digits_val(n / 10);
        assert(dec_digits(n).drop_last() =~= dec_digits(n / 10));
        assert(dec_digits(n).last() == digit_char(n % 10));
        assert(char_digit(digit_char(n % 10)) == n % 10);
        assert(dec_val(dec_digits(n)) == dec_val(dec_digits(n).drop_last()) * 10 + char_digit(
            dec_digits(n).last(),
        ));
        assert(n / 10 * 10 + n % 10 == n) by (nonlinear_arith);
    }
}

/// The exact digit count of numbers below one hundred thousand.
pub proof fn lemma_dec_digits_len_small(n: nat)
    requires
        n < 100000,
    ensures
        dec_digits(n).len() == if n < 10 {
            1int
        } else if n < 100 {
            2int
        } else if n < 1000 {
            3int
        } else if n < 10000 {
            4int
        } else {
            5int
        },
    decreases n,
{
    if n >= 10 {
        lemma_dec_digits_len_small(n / 10);
    }
}

/// A one-character string slice for a single decimal digit.
fn digit_str(d: u64) -> (s: &'static str)
    requires
        d < 10,
    ensures
        s@.len() == 1,
        s@[0] == digit_char(d as nat),
{
    proof {
        reveal_strlit("0");
        reveal_strlit("1");
        reveal_strlit("2");
        reveal_strlit("3");
        reveal_strlit("4");
        reveal_strlit("5");
        reveal_strlit("6");
        reveal_strlit("7");
        reveal_strlit("8");
        reveal_strlit("9");
    }
    if d == 0 {
        "0"
    } else if d == 1 {
        "1"
    } else if d == 2 {
        "2"
    } else if d == 3 {
        "3"
    } else if d == 4 {
        "4"
    } else if d == 5 {
        "5"
    } else if d == 6 {
        "6"
    } else if d == 7 {
        "7"
    } else if d == 8 {
        "8"
    } else {
        "9"
    }
}

/// Render `n` in decimal, without leading zeros.
pub fn format_u64(n: u64) -> (r: String)
    ensures
        r@ == dec_digits(n as nat),
    decreases n,
{
    if n < 10 {
        let s = String::from_str(digit_str(n));
        proof {
            assert(s@ =~= dec_digits(n as nat));
        }
        s
    } else {
        let prefix = format_u64(n / 10);
        let r = prefix.concat(digit_str(n % 10));
        proof {
            assert(r@ =~= dec_digits(n as nat));
        }
        r
    }
}

/// A run of `k` zero characters.
pub open spec fn zero_chars(k: nat) -> Seq<char> {
    Seq::new(k, |i: int| '0')
}

/// The decimal rendering of `n`, left-padded with zeros to five characters.
pub open spec fn dec_digits_padded5(n: nat) -> Seq<char> {
    if dec_digits(n).len() >= 5 {
        dec_digits(n)
    } else {
        zero_chars((5 - dec_digits(n).len()) as nat) + dec_digits(n)
    }
}

/// Render `n` as exactly five decimal digits, left-padded with zeros.
pub fn format_u64_padded5(n: u64) -> (r: String)
    requires
        n < 100000,
    ensures
        r@ == dec_digits_padded5(n as nat),
        r@.len() == 5,
{
    proof {
        lemma_dec_digits_len_small(n as nat);
        reveal_strlit("0");
    }
    let digits = format_u64(n);
    let mut zeros = String::new();
    let mut k: usize = 0;
    let pad: usize = if n < 10 {
        4
    } else if n < 100 {
        3
    } else if n < 1000 {
        2
    } else if n < 10000 {
        1
    } else {
        0
    };
    while k < pad
        invariant
            k <= pad,
            zeros@ =~= zero_chars(k as nat),
        decreases pad - k,
    {
        proof {
            reveal_strlit("0");
        }
        zeros.append("0");
        k = k + 1;
        proof {
            assert(zeros@ =~= zero_chars(k as nat));
        }
    }
    let r = zeros.concat(digits.as_str());
    proof {
        assert(r@ =~= dec_digits_padded5(n as nat));
    }
    r
}

} // verus!
