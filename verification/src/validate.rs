//! Local input validation: what may travel in a JSON body or a URL.
//!
//! Malformed input is caught here, before any request is built, and surfaces
//! as `ValidationError`.

use vstd::prelude::*;
use crate::models::{json_safe, char_json_safe, is_digit, all_digits};
use crate::numtext::{digit_val, val_of_digits};

verus! {

/// A character that may stand unescaped in a URL path segment or query
/// value: letters, digits, and the unreserved marks.
pub open spec fn char_url_safe(c: char) -> bool {
    ('a' <= c && c <= 'z') || ('A' <= c && c <= 'Z') || ('0' <= c && c <= '9')
        || c == '-' || c == '_' || c == '.' || c == '~'
}

/// Text that may stand unescaped in a URL path segment or query value.
pub open spec fn url_safe(s: Seq<char>) -> bool {
    forall|i: int| 0 <= i < s.len() ==> char_url_safe(#[trigger] s[i])
}

/// Whether year `y` is a leap year.
pub open spec fn is_leap_year(y: nat) -> bool {
    y % 4 == 0 && (y % 100 != 0 || y % 400 == 0)
}

/// Days in month `m` of year `y` (months counted from 1).
pub open spec fn days_in_month(y: nat, m: nat) -> nat {
    if m == 2 {
        if is_leap_year(y) { 29 } else { 28 }
    } else if m == 4 || m == 6 || m == 9 || m == 11 {
        30
    } else {
        31
    }
}

/// A calendar date written `YYYY-MM-DD`.
pub open spec fn date_ok(s: Seq<char>) -> bool {
    s.len() == 10
        && all_digits(s.subrange(0, 4))
        && s[4] == '-'
        && all_digits(s.subrange(5, 7))
        && s[7] == '-'
        && all_digits(s.subrange(8, 10))
        && {
            let m = val_of_digits(s.subrange(5, 7));
            let d = val_of_digits(s.subrange(8, 10));
            1 <= m <= 12 && 1 <= d <= days_in_month(val_of_digits(s.subrange(0, 4)), m)
        }
}

/// A time of day written `HH:MM`.
pub open spec fn time_ok(s: Seq<char>) -> bool {
    s.len() == 5
        && all_digits(s.subrange(0, 2))
        && s[2] == ':'
        && all_digits(s.subrange(3, 5))
        && val_of_digits(s.subrange(0, 2)) <= 23
        && val_of_digits(s.subrange(3, 5)) <= 59
}

/// Checks that every character of `s` may stand in a JSON string unescaped.
pub fn is_json_safe(s: &str) -> (r: bool)
    ensures
        r == json_safe(s@),
{
    let n = s.unicode_len();
    let mut i: usize = 0;
    while i < n
        invariant
            n == s@.len(),
            0 <= i <= n,
            forall|j: int| 0 <= j < i ==> char_json_safe(#[trigger] s@[j]),
        decreases n - i,
    {
        let c = s.get_char(i);
        if !(' ' <= c && c <= '~' && c != '"' && c != '\\') {
            return false;
        }
        i = i + 1;
    }
    true
}

/// Checks that every character of `s` may stand in a URL unescaped.
pub fn is_url_safe(s: &str) -> (r: bool)
    ensures
        r == url_safe(s@),
{
    let n = s.unicode_len();
    let mut i: usize = 0;
    while i < n
        invariant
            n == s@.len(),
            0 <= i <= n,
            forall|j: int| 0 <= j < i ==> char_url_safe(#[trigger] s@[j]),
        decreases n - i,
    {
        let c = s.get_char(i);
        if !(('a' <= c && c <= 'z') || ('A' <= c && c <= 'Z') || ('0' <= c && c <= '9')
            || c == '-' || c == '_' || c == '.' || c == '~')
        {
            return false;
        }
        i = i + 1;
    }
    true
}

/// The value of one digit character.
pub fn digit_value(c: char) -> (r: u32)
    requires
        is_digit(c),
    ensures
        r == digit_val(c),
{
    if c == '0' { 0 }
    else if c == '1' { 1 }
    else if c == '2' { 2 }
    else if c == '3' { 3 }
    else if c == '4' { 4 }
    else if c == '5' { 5 }
    else if c == '6' { 6 }
    else if c == '7' { 7 }
    else { 9 - (if c == '8' { 1 } else { 0 }) }
}

/// The value of a two-digit group.
fn two_digit_val(a: char, b: char) -> (r: u32)
    requires
        is_digit(a),
        is_digit(b),
    ensures
        r == val_of_digits(seq![a, b]),
{
    let r = digit_value(a) * 10 + digit_value(b);
    proof {
        let s = seq![a, b];
        assert(s.drop_last() =~= seq![a]);
        assert(seq![a].drop_last() =~= Seq::<char>::empty());
        assert(val_of_digits(Seq::<char>::empty()) == 0);
        assert(val_of_digits(s) == (val_of_digits(seq![a]) * 10 + digit_val(b)));
        assert(val_of_digits(seq![a]) == digit_val(a));
    }
    r
}

/// The value of a four-digit group.
fn four_digit_val(a: char, b: char, c: char, d: char) -> (r: u32)
    requires
        is_digit(a),
        is_digit(b),
        is_digit(c),
        is_digit(d),
    ensures
        r == val_of_digits(seq![a, b, c, d]),
{
    let r = ((digit_value(a) * 10 + digit_value(b)) * 10 + digit_value(c)) * 10 + digit_value(d);
    proof {
        let s = seq![a, b, c, d];
        assert(s.drop_last() =~= seq![a, b, c]);
        assert(seq![a, b, c].drop_last() =~= seq![a, b]);
        assert(seq![a, b].drop_last() =~= seq![a]);
        assert(seq![a].drop_last() =~= Seq::<char>::empty());
        assert(val_of_digits(Seq::<char>::empty()) == 0);
        assert(val_of_digits(s) == val_of_digits(seq![a, b, c]) * 10 + digit_val(d));
        assert(val_of_digits(seq![a, b, c]) == val_of_digits(seq![a, b]) * 10 + digit_val(c));
        assert(val_of_digits(seq![a, b]) == val_of_digits(seq![a]) * 10 + digit_val(b));
        assert(val_of_digits(seq![a]) == digit_val(a));
    }
    r
}

/// Checks that `s` is a well-formed `YYYY-MM-DD` calendar date.
pub fn is_date_ok(s: &str) -> (r: bool)
    ensures
        r == date_ok(s@),
{
    let n = s.unicode_len();
    if n != 10 {
        return false;
    }
    let c0 = s.get_char(0);
    let c1 = s.get_char(1);
    let c2 = s.get_char(2);
    let c3 = s.get_char(3);
    let c4 = s.get_char(4);
    let c5 = s.get_char(5);
    let c6 = s.get_char(6);
    let c7 = s.get_char(7);
    let c8 = s.get_char(8);
    let c9 = s.get_char(9);
    proof {
        assert(s@.subrange(0, 4) =~= seq![s@[0], s@[1], s@[2], s@[3]]);
        assert(s@.subrange(5, 7) =~= seq![s@[5], s@[6]]);
        assert(s@.subrange(8, 10) =~= seq![s@[8], s@[9]]);
    }
    let digits_ok = ('0' <= c0 && c0 <= '9') && ('0' <= c1 && c1 <= '9')
        && ('0' <= c2 && c2 <= '9') && ('0' <= c3 && c3 <= '9')
        && ('0' <= c5 && c5 <= '9') && ('0' <= c6 && c6 <= '9')
        && ('0' <= c8 && c8 <= '9') && ('0' <= c9 && c9 <= '9');
    if !(digits_ok && c4 == '-' && c7 == '-') {
        return false;
    }
    let y = four_digit_val(c0, c1, c2, c3);
    let m = two_digit_val(c5, c6);
    let d = two_digit_val(c8, c9);
    let month_days: u32 = if m == 2 {
        if y % 4 == 0 && (y % 100 != 0 || y % 400 == 0) { 29 } else { 28 }
    } else if m == 4 || m == 6 || m == 9 || m == 11 {
        30
    } else {
        31
    };
    1 <= m && m <= 12 && 1 <= d && d <= month_days
}

/// Checks that `s` is a well-formed `HH:MM` time of day.
pub fn is_time_ok(s: &str) -> (r: bool)
    ensures
        r == time_ok(s@),
{
    let n = s.unicode_len();
    if n != 5 {
        return false;
    }
    let c0 = s.get_char(0);
    let c1 = s.get_char(1);
    let c2 = s.get_char(2);
    let c3 = s.get_char(3);
    let c4 = s.get_char(4);
    proof {
        assert(s@.subrange(0, 2) =~= seq![s@[0], s@[1]]);
        assert(s@.subrange(3, 5) =~= seq![s@[3], s@[4]]);
    }
    let digits_ok = ('0' <= c0 && c0 <= '9') && ('0' <= c1 && c1 <= '9')
        && ('0' <= c3 && c3 <= '9') && ('0' <= c4 && c4 <= '9');
    if !(digits_ok && c2 == ':') {
        return false;
    }
    let h = two_digit_val(c0, c1);
    let m = two_digit_val(c3, c4);
    h <= 23 && m <= 59
}

} // verus!
