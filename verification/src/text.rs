//! Decimal rendering of integers into `String`s.

use vstd::prelude::*;

verus! {

/// The ASCII character of a decimal digit.
pub open spec fn digit_char(d: nat) -> char {
    if d == 0 { '0' }
    else if d == 1 { '1' }
    else if d == 2 { '2' }
    else if d == 3 { '3' }
    else if d == 4 { '4' }
    else if d == 5 { '5' }
    else if d == 6 { '6' }
    else if d == 7 { '7' }
    else if d == 8 { '8' }
    else { '9' }
}

/// The shortest decimal representation of `n` (no leading zeros, "0" for zero).
pub open spec fn decimal(n: nat) -> Seq<char>
    decreases n,
{
    if n < 10 {
        seq![digit_char(n)]
    } else {
        decimal(n / 10).push(digit_char(n % 10))
    }
}

/// An ASCII decimal digit.
pub open spec fn is_digit(c: char) -> bool {
    48 <= (c as int) <= 57
}

/// The value of an ASCII decimal digit.
pub open spec fn digit_value(c: char) -> int {
    (c as int) - 48
}

/// The number a sequence of decimal digits reads as (most significant first).
pub open spec fn digits_value(s: Seq<char>) -> int
    decreases s.len(),
{
    if s.len() == 0 {
        0
    } else {
        digits_value(s.drop_last()) * 10 + digit_value(s.last())
    }
}

/// A canonical decimal numeral: at least one character, only digits, and
/// no leading zero unless the numeral is "0" itself.
pub open spec fn is_numeral(s: Seq<char>) -> bool {
    &&& s.len() >= 1
    &&& forall|i: int| 0 <= i < s.len() ==> is_digit(#[trigger] s[i])
    &&& s.len() > 1 ==> s[0] != '0'
}

/// `digit_char` gives the ASCII digit of each value below ten.
pub proof fn lemma_digit_char(d: nat)
    requires
        d < 10,
    ensures
        is_digit(digit_char(d)),
        digit_value(digit_char(d)) == d,
        d != 0 ==> digit_char(d) != '0',
{
    assert('0' as int == 48 && '1' as int == 49 && '2' as int == 50 && '3' as int == 51
        && '4' as int == 52 && '5' as int == 53 && '6' as int == 54 && '7' as int == 55
        && '8' as int == 56 && '9' as int == 57);
}

/// `decimal(n)` is the canonical numeral of `n`: it is made of digits, has
/// no leading zero, and reads back as `n`.
pub proof fn lemma_decimal_reads_back(n: nat)
    ensures
        is_numeral(decimal(n)),
        digits_value(decimal(n)) == n,
        n > 0 ==> decimal(n)[0] != '0',
    decreases n,
{
    if n < 10 {
        lemma_digit_char(n);
        let s = decimal(n);
        assert(s.drop_last() =~= Seq::<char>::empty());
        assert(digits_value(s.drop_last()) == 0);
        assert(digits_value(s) == digits_value(s.drop_last()) * 10 + digit_value(s.last()));
    } else {
        lemma_digit_char(n % 10);
        lemma_decimal_reads_back(n / 10);
        let s = decimal(n);
        let t = decimal(n / 10);
        assert(s.drop_last() =~= t);
        assert(s[0] == t[0]);
        assert(s.last() == digit_char(n % 10));
        assert(digits_value(s) == digits_value(t) * 10 + digit_value(s.last()));
        assert((n / 10) * 10 + n % 10 == n);
        assert forall|i: int| 0 <= i < s.len() implies is_digit(#[trigger] s[i]) by {
            if i < t.len() {
                assert(s[i] == t[i]);
            }
        }
    }
}

fn digit_str(d: u128) -> (s: &'static str)
    requires
        d < 10,
    ensures
        s@ == seq![digit_char(d as nat)],
{
    if d == 0 {
        proof { reveal_strlit("0"); }
        "0"
    } else if d == 1 {
        proof { reveal_strlit("1"); }
        "1"
    } else if d == 2 {
        proof { reveal_strlit("2"); }
        "2"
    } else if d == 3 {
        proof { reveal_strlit("3"); }
        "3"
    } else if d == 4 {
        proof { reveal_strlit("4"); }
        "4"
    } else if d == 5 {
        proof { reveal_strlit("5"); }
        "5"
    } else if d == 6 {
        proof { reveal_strlit("6"); }
        "6"
    } else if d == 7 {
        proof { reveal_strlit("7"); }
        "7"
    } else if d == 8 {
        proof { reveal_strlit("8"); }
        "8"
    } else {
        proof { reveal_strlit("9"); }
        "9"
    }
}

/// Renders `n` in decimal, as `{}` formatting of an unsigned integer does.
pub fn decimal_text(n: u128) -> (s: String)
    ensures
        s@ == decimal(n as nat),
    decreases n,
{
    if n < 10 {
        String::from_str(digit_str(n))
    } else {
        let mut s = decimal_text(n / 10);
        s.append(digit_str(n % 10));
        s
    }
}

/// Decimal rendering of a signed integer: a minus sign before the magnitude
/// of a negative value.
pub open spec fn signed_decimal(i: int) -> Seq<char> {
    if i < 0 {
        seq!['-'] + decimal((-i) as nat)
    } else {
        decimal(i as nat)
    }
}

/// Renders `i` in decimal, as `{}` formatting of a signed integer does.
pub fn signed_text(i: i64) -> (s: String)
    ensures
        s@ == signed_decimal(i as int),
{
    if i < 0 {
        let magnitude: u64 = if i == i64::MIN {
            9_223_372_036_854_775_808u64
        } else {
            (-i) as u64
        };
        let mut s = String::from_str("-");
        proof { reveal_strlit("-"); }
        s.append(decimal_text(magnitude as u128).as_str());
        s
    } else {
        decimal_text(i as u128)
    }
}

/// The fractional digits of `frac` thousandths, trailing zeros dropped
/// (`frac` is in `1..1000`).
pub open spec fn thousandths_digits(frac: nat) -> Seq<char> {
    let d1 = frac / 100;
    let d2 = (frac / 10) % 10;
    let d3 = frac % 10;
    if d3 != 0 {
        seq![digit_char(d1), digit_char(d2), digit_char(d3)]
    } else if d2 != 0 {
        seq![digit_char(d1), digit_char(d2)]
    } else {
        seq![digit_char(d1)]
    }
}

/// A duration of `ms` milliseconds written in seconds, with no trailing
/// zeros in the fraction and no decimal point for whole seconds
/// (700 ms is "0.7", 1500 ms is "1.5", 2000 ms is "2").
pub open spec fn seconds_from_millis(ms: nat) -> Seq<char> {
    let whole = decimal(ms / 1000);
    let frac = ms % 1000;
    if frac == 0 {
        whole
    } else {
        whole + seq!['.'] + thousandths_digits(frac)
    }
}

/// Renders a duration given in milliseconds as seconds.
pub fn seconds_text(ms: u64) -> (s: String)
    ensures
        s@ == seconds_from_millis(ms as nat),
{
    let mut s = decimal_text((ms / 1000) as u128);
    let frac = ms % 1000;
    if frac != 0 {
        let d1 = frac / 100;
        let d2 = (frac / 10) % 10;
        let d3 = frac % 10;
        proof { reveal_strlit("."); }
        s.append(".");
        s.append(digit_str(d1 as u128));
        if d2 != 0 || d3 != 0 {
            s.append(digit_str(d2 as u128));
        }
        if d3 != 0 {
            s.append(digit_str(d3 as u128));
        }
    }
    s
}

/// `n` in decimal, padded with leading zeros to at least two digits.
pub open spec fn two_digits(n: nat) -> Seq<char> {
    if n < 10 {
        seq!['0', digit_char(n)]
    } else {
        decimal(n)
    }
}

/// Below one hundred, `two_digits(n)` is exactly two digits that read back
/// as `n`.
pub proof fn lemma_two_digits_reads_back(n: nat)
    requires
        n < 100,
    ensures
        two_digits(n).len() == 2,
        is_digit(two_digits(n)[0]),
        is_digit(two_digits(n)[1]),
        digit_value(two_digits(n)[0]) * 10 + digit_value(two_digits(n)[1]) == n,
{
    lemma_digit_char(n % 10);
    lemma_digit_char(n / 10);
    lemma_digit_char(0);
    if n >= 10 {
        assert(decimal(n / 10) == seq![digit_char(n / 10)]);
        assert(decimal(n) =~= seq![digit_char(n / 10), digit_char(n % 10)]);
    }
}

/// Renders `n` with at least two digits, as `{:02}` formatting does.
pub fn two_digit_text(n: u64) -> (s: String)
    ensures
        s@ == two_digits(n as nat),
{
    if n < 10 {
        proof { reveal_strlit("0"); }
        let mut s = String::from_str("0");
        s.append(digit_str(n as u128));
        s
    } else {
        decimal_text(n as u128)
    }
}

} // verus!
