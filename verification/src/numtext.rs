//! Decimal text: the one notation integers take on the wire and in URLs.

use vstd::prelude::*;
use crate::models::{all_digits, is_digit};

verus! {

/// The character of one decimal digit.
pub open spec fn digit_char(d: nat) -> char {
    if d == 0 { '0' }
    else if d == 1 { '1' }
    else if d == 2 { '2' }
    else if d == 3 { '3' }
    else if d == 4 { '4' }
    else if d == 5 { '5' }
    else if d == 6 { '6' }
    else if d == 7 { '7' }
    else if d == 8 { '8' }
    else { '9' }
}

/// The value of one digit character.
pub open spec fn digit_val(c: char) -> nat {
    if c == '0' { 0 }
    else if c == '1' { 1 }
    else if c == '2' { 2 }
    else if c == '3' { 3 }
    else if c == '4' { 4 }
    else if c == '5' { 5 }
    else if c == '6' { 6 }
    else if c == '7' { 7 }
    else if c == '8' { 8 }
    else { 9 }
}

/// The decimal notation of `n`, most significant digit first, no leading
/// zero except for `0` itself.
pub open spec fn dec_of(n: nat) -> Seq<char>
    decreases n,
{
    if n < 10 {
        seq![digit_char(n)]
    } else {
        dec_of(n / 10).push(digit_char(n % 10))
    }
}

/// The decimal notation of a signed value: a leading minus sign when negative.
pub open spec fn int_dec_of(i: int) -> Seq<char> {
    if i < 0 {
        seq!['-'] + dec_of((-i) as nat)
    } else {
        dec_of(i as nat)
    }
}

/// The value of a digit string, most significant digit first.
pub open spec fn val_of_digits(s: Seq<char>) -> nat
    decreases s.len(),
{
    if s.len() == 0 {
        0
    } else {
        val_of_digits(s.drop_last()) * 10 + digit_val(s.last())
    }
}

/// Ten to the `k`.
pub open spec fn pow10(k: nat) -> nat
    decreases k,
{
    if k == 0 { 1 } else { 10 * pow10((k - 1) as nat) }
}

/// The decimal notation consists of digits and is never empty.
pub proof fn lemma_dec_of_digits(n: nat)
    ensures
        all_digits(dec_of(n)),
        dec_of(n).len() >= 1,
    decreases n,
{
    if n >= 10 {
        lemma_dec_of_digits(n / 10);
    }
}

/// A digit character reads back as the digit it was written from.
pub proof fn lemma_digit_roundtrip(d: nat)
    requires
        d < 10,
    ensures
        digit_val(digit_char(d)) == d,
{
}

/// Reading the decimal notation back gives the value written.
pub proof fn lemma_val_of_dec_of(n: nat)
    ensures
        val_of_digits(dec_of(n)) == n,
    decreases n,
{
    if n < 10 {
        lemma_digit_roundtrip(n);
        let s = dec_of(n);
        assert(s =~= seq![digit_char(n)]);
        assert(s.drop_last() =~= Seq::<char>::empty());
        assert(val_of_digits(s) == val_of_digits(s.drop_last()) * 10 + digit_val(s.last()));
        assert(val_of_digits(Seq::<char>::empty()) == 0);
    } else {
        lemma_val_of_dec_of(n / 10);
        lemma_digit_roundtrip(n % 10);
        let s = dec_of(n);
        assert(s =~= dec_of(n / 10).push(digit_char(n % 10)));
        assert(s.last() == digit_char(n % 10));
        assert(s.drop_last() =~= dec_of(n / 10));
        assert(val_of_digits(s) == val_of_digits(s.drop_last()) * 10 + digit_val(s.last()));
    }
}

/// A value below `pow10(k)` takes at most `k` digits.
pub proof fn lemma_dec_of_len(n: nat, k: nat)
    requires
        n < pow10(k),
        k >= 1,
    ensures
        dec_of(n).len() <= k,
    decreases k,
{
    if n >= 10 {
        lemma_dec_of_len(n / 10, (k - 1) as nat);
    }
}

/// Powers of ten grow with the exponent.
pub proof fn lemma_pow10_mono(a: nat, b: nat)
    requires
        a <= b,
    ensures
        pow10(a) <= pow10(b),
    decreases b,
{
    if a < b {
        lemma_pow10_mono(a, (b - 1) as nat);
    }
}

/// `pow10(10)` in full, for bounds on 32-bit parses.
pub proof fn lemma_pow10_10()
    ensures
        pow10(10) == 10_000_000_000,
{
    assert(pow10(0) == 1);
    assert(pow10(1) == 10);
    assert(pow10(2) == 100);
    assert(pow10(3) == 1000);
    assert(pow10(4) == 10_000);
    assert(pow10(5) == 100_000);
    assert(pow10(6) == 1_000_000);
    assert(pow10(7) == 10_000_000);
    assert(pow10(8) == 100_000_000);
    assert(pow10(9) == 1_000_000_000);
    assert(pow10(10) == 10_000_000_000);
}

/// The one-character string of a digit.
fn digit_str(d: u64) -> (r: &'static str)
    requires
        d < 10,
    ensures
        r@ =~= seq![digit_char(d as nat)],
{
    proof {
        reveal_strlit("0");
        reveal_strlit("1");
        reveal_strlit("2");
        reveal_strlit("3");
        reveal_strlit("4");
        reveal_strlit("5");
        reveal_strlit("6");
        reveal_strlit("7");
        reveal_strlit("8");
        reveal_strlit("9");
    }
    if d == 0 { "0" }
    else if d == 1 { "1" }
    else if d == 2 { "2" }
    else if d == 3 { "3" }
    else if d == 4 { "4" }
    else if d == 5 { "5" }
    else if d == 6 { "6" }
    else if d == 7 { "7" }
    else if d == 8 { "8" }
    else { "9" }
}

/// Writes `n` in decimal.
pub fn fmt_u64(n: u64) -> (r: String)
    ensures
        r@ == dec_of(n as nat),
    decreases n,
{
    if n < 10 {
        let mut s = String::new();
        s.append(digit_str(n));
        proof {
            assert(s@ =~= dec_of(n as nat));
        }
        s
    } else {
        let mut s = fmt_u64(n / 10);
        s.append(digit_str(n % 10));
        proof {
            assert(s@ =~= dec_of(n as nat));
        }
        s
    }
}

/// Writes `n` in decimal.
pub fn fmt_u32(n: u32) -> (r: String)
    ensures
        r@ == dec_of(n as nat),
{
    fmt_u64(n as u64)
}

/// Writes `n` in decimal.
pub fn fmt_usize(n: usize) -> (r: String)
    ensures
        r@ == dec_of(n as nat),
{
    fmt_u64(n as u64)
}

/// Writes `n` in decimal, with a minus sign when negative.
pub fn fmt_i32(n: i32) -> (r: String)
    ensures
        r@ == int_dec_of(n as int),
{
    if n >= 0 {
        fmt_u64(n as u64)
    } else {
        let m: u64 = (-(n as i64)) as u64;
        proof {
            assert(m == -(n as int));
        }
        let mut s = String::new();
        s.append("-");
        s.append(fmt_u64(m).as_str());
        proof {
            reveal_strlit("-");
            assert(s@ =~= int_dec_of(n as int));
        }
        s
    }
}

} // verus!
