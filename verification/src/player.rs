//! Decisions of the preview player: the label of the track's length and the
//! cycling of the theme colors.

use vstd::prelude::*;

use crate::text::{
    decimal, decimal_text, digit_value, digits_value, is_digit, is_numeral, lemma_decimal_reads_back,
    lemma_two_digits_reads_back, two_digit_text, two_digits,
};

verus! {

/// The length of a track of `total_secs` seconds as minutes and two-digit
/// seconds, "m:ss".
pub open spec fn spec_time_label(total_secs: nat) -> Seq<char> {
    decimal(total_secs / 60) + ":"@ + two_digits(total_secs % 60)
}

/// The label of a track of `total_secs` seconds is the whole minutes as a
/// canonical numeral, a colon, then exactly two digits that read as the
/// remaining seconds.
pub proof fn lemma_time_label_reads_back(total_secs: nat)
    ensures
        ({
            let s = spec_time_label(total_secs);
            let len = s.len();
            &&& len >= 4
            &&& s[len - 3] == ':'
            &&& is_digit(s[len - 2])
            &&& is_digit(s[len - 1])
            &&& digit_value(s[len - 2]) * 10 + digit_value(s[len - 1]) == total_secs % 60
            &&& is_numeral(s.take(len - 3))
            &&& digits_value(s.take(len - 3)) == total_secs / 60
        }),
{
    lemma_decimal_reads_back(total_secs / 60);
    lemma_two_digits_reads_back(total_secs % 60);
    reveal_strlit(":");
    let m = decimal(total_secs / 60);
    let t = two_digits(total_secs % 60);
    let s = spec_time_label(total_secs);
    assert(s.len() == m.len() + 3);
    assert(s.take(s.len() - 3) =~= m);
    assert(s[s.len() - 3] == ':');
    assert(s[s.len() - 2] == t[0]);
    assert(s[s.len() - 1] == t[1]);
}

/// The label of a track's length shown at the end of the seek slider.
pub fn track_time_label(total_secs: u32) -> (s: String)
    ensures
        s@ == spec_time_label(total_secs as nat),
        s@.len() >= 4,
        s@[s@.len() - 3] == ':',
        is_digit(s@[s@.len() - 2]),
        is_digit(s@[s@.len() - 1]),
        digit_value(s@[s@.len() - 2]) * 10 + digit_value(s@[s@.len() - 1]) == total_secs % 60,
        is_numeral(s@.take(s@.len() - 3)),
        digits_value(s@.take(s@.len() - 3)) == total_secs / 60,
{
    proof {
        lemma_time_label_reads_back(total_secs as nat);
    }
    let mut s = decimal_text((total_secs / 60) as u128);
    s.append(":");
    s.append(two_digit_text((total_secs % 60) as u64).as_str());
    s
}

/// The theme that follows theme `current` among `count` themes, wrapping
/// around after the last.
pub fn next_theme(current: usize, count: usize) -> (next: usize)
    requires
        count > 0,
        current < count,
    ensures
        next == (current + 1) % (count as int),
        next < count,
{
    proof {
        assert((current + 1) % (count as int) == if current + 1 == count { 0 } else { current + 1 })
            by (nonlinear_arith)
            requires
                count > 0,
                current < count,
        ;
    }
    if current + 1 == count { 0 } else { current + 1 }
}

} // verus!
