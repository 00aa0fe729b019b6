//! The reading half of the wire format: scanners for the canonical JSON
//! text of `codec`, each an executable function proved equal to a
//! specification-level parser.
//!
//! Positions are character indices.  Every parser either returns the parsed
//! value with the position just past it, or `None`; none panics.

use vstd::prelude::*;
use crate::models::{char_json_safe, is_digit, is_number_text, all_digits};
use crate::numtext::{digit_val, val_of_digits, pow10, lemma_pow10_10};
use crate::validate::digit_value;

verus! {

/// Position just past `lit` when `lit` stands at `i`.
pub open spec fn eat_lit(s: Seq<char>, i: int, lit: Seq<char>) -> Option<int> {
    if 0 <= i && i + lit.len() <= s.len() && s.subrange(i, i + lit.len()) == lit {
        Some(i + lit.len())
    } else {
        None
    }
}

/// The body of a JSON string read from `i` (just past the opening quote) up
/// to its closing quote: the unescaped characters and the position past the
/// quote.  A character that would need an escape stops the scan.
pub open spec fn scan_string(s: Seq<char>, i: int) -> Option<(Seq<char>, int)>
    decreases s.len() - i,
{
    if i < 0 || i >= s.len() {
        None
    } else if s[i] == '"' {
        Some((Seq::empty(), i + 1))
    } else if char_json_safe(s[i]) {
        match scan_string(s, i + 1) {
            Some((c, j)) => Some((seq![s[i]] + c, j)),
            None => None,
        }
    } else {
        None
    }
}

/// The run of decimal digits starting at `i`.
pub open spec fn scan_digits(s: Seq<char>, i: int) -> Seq<char>
    decreases s.len() - i,
{
    if 0 <= i < s.len() && is_digit(s[i]) {
        seq![s[i]] + scan_digits(s, i + 1)
    } else {
        Seq::empty()
    }
}

/// A character that may appear in decimal number text.
pub open spec fn is_num_char(c: char) -> bool {
    is_digit(c) || c == '-' || c == '.'
}

/// The run of number characters starting at `i`.
pub open spec fn scan_num(s: Seq<char>, i: int) -> Seq<char>
    decreases s.len() - i,
{
    if 0 <= i < s.len() && is_num_char(s[i]) {
        seq![s[i]] + scan_num(s, i + 1)
    } else {
        Seq::empty()
    }
}

/// An unsigned integer of at most ten digits read at `i`.
pub open spec fn parse_uint_at(s: Seq<char>, i: int) -> Option<(u64, int)> {
    let run = scan_digits(s, i);
    if 1 <= run.len() <= 10 {
        Some((val_of_digits(run) as u64, i + run.len()))
    } else {
        None
    }
}

/// A `u32` read at `i`.
pub open spec fn parse_u32_at(s: Seq<char>, i: int) -> Option<(u32, int)> {
    match parse_uint_at(s, i) {
        Some((v, j)) => if v <= u32::MAX { Some((v as u32, j)) } else { None },
        None => None,
    }
}

/// An `i32` read at `i`: an optional minus sign and digits.
pub open spec fn parse_i32_at(s: Seq<char>, i: int) -> Option<(i32, int)> {
    if 0 <= i < s.len() && s[i] == '-' {
        match parse_uint_at(s, i + 1) {
            Some((v, j)) => if v <= 0x8000_0000u64 { Some(((-(v as int)) as i32, j)) } else { None },
            None => None,
        }
    } else {
        match parse_uint_at(s, i) {
            Some((v, j)) => if v <= i32::MAX { Some((v as i32, j)) } else { None },
            None => None,
        }
    }
}

/// An optional integer field: `null`, or an `i32`.
pub open spec fn parse_opt_i32_at(s: Seq<char>, i: int) -> Option<(Option<i32>, int)> {
    match eat_lit(s, i, "null"@) {
        Some(j) => Some((None, j)),
        None => match parse_i32_at(s, i) {
            Some((v, j)) => Some((Some(v), j)),
            None => None,
        },
    }
}

/// Number text read at `i`: the raw run, kept digit for digit, accepted
/// only when it is well-formed decimal notation.
pub open spec fn parse_numtext_at(s: Seq<char>, i: int) -> Option<(Seq<char>, int)> {
    let run = scan_num(s, i);
    if is_number_text(run) {
        Some((run, i + run.len()))
    } else {
        None
    }
}

/// A quoted JSON string read at `i` (the quote included).
pub open spec fn parse_jstr_at(s: Seq<char>, i: int) -> Option<(Seq<char>, int)> {
    if 0 <= i < s.len() && s[i] == '"' {
        scan_string(s, i + 1)
    } else {
        None
    }
}

/// An optional string field: `null`, or a quoted string.
pub open spec fn parse_opt_jstr_at(s: Seq<char>, i: int) -> Option<(Option<Seq<char>>, int)> {
    match eat_lit(s, i, "null"@) {
        Some(j) => Some((None, j)),
        None => match parse_jstr_at(s, i) {
            Some((c, j)) => Some((Some(c), j)),
            None => None,
        },
    }
}

/// Matches `lit` at position `i`.
pub fn eat_lit_exec(s: &str, n: usize, i: usize, lit: &str) -> (r: Option<usize>)
    requires
        n == s@.len(),
    ensures
        (r matches Some(j) ==> eat_lit(s@, i as int, lit@) == Some(j as int) && i <= j <= s@.len()),
        (r is None ==> eat_lit(s@, i as int, lit@) is None),
{
    let m = lit.unicode_len();
    if i > n || m > n - i {
        return None;
    }
    let mut k: usize = 0;
    while k < m
        invariant
            n == s@.len(),
            m == lit@.len(),
            i + m <= n,
            0 <= k <= m,
            s@.subrange(i as int, i + k) == lit@.subrange(0, k as int),
        decreases m - k,
    {
        let a = s.get_char(i + k);
        let b = lit.get_char(k);
        if a != b {
            proof {
                let full = s@.subrange(i as int, i + m as int);
                assert(full[k as int] == s@[i + k]);
                assert(full != lit@);
            }
            return None;
        }
        proof {
            assert(s@.subrange(i as int, i + (k + 1)) =~= s@.subrange(i as int, i + k).push(
                s@[i + k],
            ));
            assert(lit@.subrange(0, k + 1) =~= lit@.subrange(0, k as int).push(lit@[k as int]));
        }
        k = k + 1;
    }
    proof {
        assert(s@.subrange(i as int, i + m as int) == lit@.subrange(0, m as int));
        assert(lit@.subrange(0, m as int) =~= lit@);
    }
    Some(i + m)
}

/// A scan over safe non-quote characters reads exactly up to the quote.
pub proof fn lemma_scan_string_range(s: Seq<char>, i: int, j: int)
    requires
        0 <= i <= j < s.len(),
        forall|k: int| i <= k < j ==> char_json_safe(#[trigger] s[k]) && s[k] != '"',
        s[j] == '"',
    ensures
        scan_string(s, i) == Some((s.subrange(i, j), j + 1)),
    decreases j - i,
{
    if i == j {
        assert(s.subrange(i, j) =~= Seq::<char>::empty());
    } else {
        lemma_scan_string_range(s, i + 1, j);
        assert(seq![s[i]] + s.subrange(i + 1, j) =~= s.subrange(i, j));
    }
}

/// A scan that meets a character no unescaped string may hold fails.
pub proof fn lemma_scan_string_none(s: Seq<char>, i: int, j: int)
    requires
        0 <= i <= j <= s.len(),
        forall|k: int| i <= k < j ==> char_json_safe(#[trigger] s[k]) && s[k] != '"',
        j == s.len() || (!char_json_safe(s[j]) && s[j] != '"'),
    ensures
        scan_string(s, i) is None,
    decreases j - i,
{
    if i < j {
        lemma_scan_string_none(s, i + 1, j);
    }
}

/// Reads a string body up to its closing quote.
pub fn scan_string_exec(s: &str, n: usize, i: usize) -> (r: Option<(String, usize)>)
    requires
        n == s@.len(),
    ensures
        (r matches Some(p) ==> scan_string(s@, i as int) == Some((p.0@, p.1 as int)) && i < p.1
            <= s@.len()),
        (r is None ==> scan_string(s@, i as int) is None),
{
    if i >= n {
        return None;
    }
    let mut j: usize = i;
    while j < n
        invariant
            n == s@.len(),
            i <= j <= n,
            forall|k: int| i <= k < j ==> char_json_safe(#[trigger] s@[k]) && s@[k] != '"',
        decreases n - j,
    {
        let c = s.get_char(j);
        if c == '"' {
            proof {
                lemma_scan_string_range(s@, i as int, j as int);
            }
            let content = s.substring_char(i, j);
            return Some((String::from_str(content), j + 1));
        }
        if !(' ' <= c && c <= '~' && c != '\\') {
            proof {
                lemma_scan_string_none(s@, i as int, j as int);
            }
            return None;
        }
        j = j + 1;
    }
    proof {
        lemma_scan_string_none(s@, i as int, n as int);
    }
    None
}

/// A scan over digits reads exactly up to the first non-digit.
pub proof fn lemma_scan_digits_range(s: Seq<char>, i: int, j: int)
    requires
        0 <= i <= j <= s.len(),
        forall|k: int| i <= k < j ==> is_digit(#[trigger] s[k]),
        j == s.len() || !is_digit(s[j]),
    ensures
        scan_digits(s, i) == s.subrange(i, j),
    decreases j - i,
{
    if i == j {
        assert(s.subrange(i, j) =~= Seq::<char>::empty());
    } else {
        lemma_scan_digits_range(s, i + 1, j);
        assert(seq![s[i]] + s.subrange(i + 1, j) =~= s.subrange(i, j));
    }
}

/// A scan over number characters reads exactly up to the first other one.
pub proof fn lemma_scan_num_range(s: Seq<char>, i: int, j: int)
    requires
        0 <= i <= j <= s.len(),
        forall|k: int| i <= k < j ==> is_num_char(#[trigger] s[k]),
        j == s.len() || !is_num_char(s[j]),
    ensures
        scan_num(s, i) == s.subrange(i, j),
    decreases j - i,
{
    if i == j {
        assert(s.subrange(i, j) =~= Seq::<char>::empty());
    } else {
        lemma_scan_num_range(s, i + 1, j);
        assert(seq![s[i]] + s.subrange(i + 1, j) =~= s.subrange(i, j));
    }
}

/// `first_dot_from` finds exactly the first dot.
proof fn lemma_first_dot_range(s: Seq<char>, i: int, j: int)
    requires
        0 <= i <= j <= s.len(),
        forall|k: int| i <= k < j ==> (#[trigger] s[k]) != '.',
        j == s.len() || s[j] == '.',
    ensures
        crate::models::first_dot_from(s, i) == j,
    decreases j - i,
{
    if i < j {
        lemma_first_dot_range(s, i + 1, j);
    }
}

/// Whether `c` is a decimal digit.
fn is_digit_char(c: char) -> (r: bool)
    ensures
        r == is_digit(c),
{
    '0' <= c && c <= '9'
}

/// The end of the digit run starting at `j`.
fn digit_run_end(s: &str, n: usize, j: usize) -> (r: usize)
    requires
        n == s@.len(),
        j <= n,
    ensures
        j <= r <= n,
        forall|k: int| j <= k < r ==> is_digit(#[trigger] s@[k]),
        r == n || !is_digit(s@[r as int]),
    decreases n - j,
{
    if j < n {
        if is_digit_char(s.get_char(j)) {
            digit_run_end(s, n, j + 1)
        } else {
            j
        }
    } else {
        n
    }
}

/// The end of the number-character run starting at `j`.
fn num_run_end(s: &str, n: usize, j: usize) -> (r: usize)
    requires
        n == s@.len(),
        j <= n,
    ensures
        j <= r <= n,
        forall|k: int| j <= k < r ==> is_num_char(#[trigger] s@[k]),
        r == n || !is_num_char(s@[r as int]),
    decreases n - j,
{
    if j < n {
        let c = s.get_char(j);
        if is_digit_char(c) || c == '-' || c == '.' {
            num_run_end(s, n, j + 1)
        } else {
            j
        }
    } else {
        n
    }
}

/// The first dot at or past `j`, or the length.
fn dot_end(s: &str, n: usize, j: usize) -> (r: usize)
    requires
        n == s@.len(),
        j <= n,
    ensures
        j <= r <= n,
        forall|k: int| j <= k < r ==> (#[trigger] s@[k]) != '.',
        r == n || s@[r as int] == '.',
    decreases n - j,
{
    if j < n {
        if s.get_char(j) == '.' {
            j
        } else {
            dot_end(s, n, j + 1)
        }
    } else {
        n
    }
}

/// Whether every character in `[a, b)` is a digit.
fn all_digits_check(s: &str, n: usize, a: usize, b: usize) -> (r: bool)
    requires
        n == s@.len(),
        a <= b <= n,
    ensures
        r == all_digits(s@.subrange(a as int, b as int)),
{
    let mut k: usize = a;
    while k < b
        invariant
            n == s@.len(),
            a <= k <= b <= n,
            forall|q: int| a <= q < k ==> is_digit(#[trigger] s@[q]),
        decreases b - k,
    {
        if !is_digit_char(s.get_char(k)) {
            proof {
                assert(s@.subrange(a as int, b as int)[k - a] == s@[k as int]);
            }
            return false;
        }
        k = k + 1;
    }
    proof {
        let sub = s@.subrange(a as int, b as int);
        assert forall|q: int| 0 <= q < sub.len() implies is_digit(#[trigger] sub[q]) by {
            assert(sub[q] == s@[a + q]);
        }
    }
    true
}

/// Checks decimal number notation, sign and single inner dot included.
pub fn is_number_text_exec(t: &str) -> (r: bool)
    ensures
        r == is_number_text(t@),
{
    let n = t.unicode_len();
    if n == 0 {
        return false;
    }
    let start: usize = if t.get_char(0) == '-' {
        1
    } else {
        0
    };
    let u = t.substring_char(start, n);
    let m = n - start;
    proof {
        assert(u@ == t@.subrange(start as int, n as int));
        if start == 0 {
            assert(u@ =~= t@);
        }
    }
    let d = dot_end(u, m, 0);
    proof {
        lemma_first_dot_range(u@, 0, d as int);
        assert(u@.subrange(0, m as int) =~= u@);
    }
    if d == m {
        m > 0 && all_digits_check(u, m, 0, m)
    } else {
        0 < d && d + 1 < m && all_digits_check(u, m, 0, d) && all_digits_check(u, m, d + 1, m)
    }
}

/// Reads an unsigned integer of at most ten digits.
pub fn parse_uint_exec(s: &str, n: usize, i: usize) -> (r: Option<(u64, usize)>)
    requires
        n == s@.len(),
        i <= n,
    ensures
        (r matches Some(p) ==> parse_uint_at(s@, i as int) == Some((p.0, p.1 as int)) && i < p.1
            <= n),
        (r is None ==> parse_uint_at(s@, i as int) is None),
{
    let j = digit_run_end(s, n, i);
    proof {
        lemma_scan_digits_range(s@, i as int, j as int);
    }
    let len = j - i;
    if len < 1 || len > 10 {
        return None;
    }
    let mut acc: u64 = 0;
    let mut k: usize = i;
    while k < j
        invariant
            n == s@.len(),
            i <= k <= j <= n,
            j - i <= 10,
            forall|q: int| i <= q < j ==> is_digit(#[trigger] s@[q]),
            acc == val_of_digits(s@.subrange(i as int, k as int)),
            acc < pow10((k - i) as nat),
        decreases j - k,
    {
        let c = s.get_char(k);
        let d = digit_value(c);
        proof {
            lemma_pow10_10();
            crate::numtext::lemma_pow10_mono(((k - i) as nat), 10);
            let pre = s@.subrange(i as int, k as int);
            let post = s@.subrange(i as int, k as int + 1);
            assert(post.drop_last() =~= pre);
            assert(post.last() == s@[k as int]);
            assert(val_of_digits(post) == val_of_digits(pre) * 10 + digit_val(s@[k as int]));
        }
        acc = acc * 10 + (d as u64);
        k = k + 1;
    }
    proof {
        assert(s@.subrange(i as int, j as int) == scan_digits(s@, i as int));
    }
    Some((acc, j))
}

/// Reads a `u32`.
pub fn parse_u32_exec(s: &str, n: usize, i: usize) -> (r: Option<(u32, usize)>)
    requires
        n == s@.len(),
        i <= n,
    ensures
        (r matches Some(p) ==> parse_u32_at(s@, i as int) == Some((p.0, p.1 as int)) && i < p.1
            <= n),
        (r is None ==> parse_u32_at(s@, i as int) is None),
{
    match parse_uint_exec(s, n, i) {
        Some((v, j)) => {
            if v <= 0xFFFF_FFFFu64 {
                Some((v as u32, j))
            } else {
                None
            }
        },
        None => None,
    }
}

/// Reads an `i32`: an optional minus sign and digits.
pub fn parse_i32_exec(s: &str, n: usize, i: usize) -> (r: Option<(i32, usize)>)
    requires
        n == s@.len(),
        i <= n,
    ensures
        (r matches Some(p) ==> parse_i32_at(s@, i as int) == Some((p.0, p.1 as int)) && i < p.1
            <= n),
        (r is None ==> parse_i32_at(s@, i as int) is None),
{
    if i < n && s.get_char(i) == '-' {
        match parse_uint_exec(s, n, i + 1) {
            Some((v, j)) => {
                if v <= 0x8000_0000u64 {
                    let neg: i64 = -(v as i64);
                    Some((neg as i32, j))
                } else {
                    None
                }
            },
            None => None,
        }
    } else {
        match parse_uint_exec(s, n, i) {
            Some((v, j)) => {
                if v <= 0x7FFF_FFFFu64 {
                    Some((v as i32, j))
                } else {
                    None
                }
            },
            None => None,
        }
    }
}

/// Reads `null` or an `i32`.
pub fn parse_opt_i32_exec(s: &str, n: usize, i: usize) -> (r: Option<(Option<i32>, usize)>)
    requires
        n == s@.len(),
        i <= n,
    ensures
        (r matches Some(p) ==> parse_opt_i32_at(s@, i as int) == Some((p.0, p.1 as int)) && i < p.1
            <= n),
        (r is None ==> parse_opt_i32_at(s@, i as int) is None),
{
    match eat_lit_exec(s, n, i, "null") {
        Some(j) => {
            proof {
                reveal_strlit("null");
            }
            Some((None, j))
        },
        None => {
            proof {
                reveal_strlit("null");
            }
            match parse_i32_exec(s, n, i) {
                Some((v, j)) => Some((Some(v), j)),
                None => None,
            }
        },
    }
}

/// Reads number text, kept digit for digit.
pub fn parse_numtext_exec(s: &str, n: usize, i: usize) -> (r: Option<(String, usize)>)
    requires
        n == s@.len(),
        i <= n,
    ensures
        (r matches Some(p) ==> parse_numtext_at(s@, i as int) == Some((p.0@, p.1 as int)) && i < p.1
            <= n),
        (r is None ==> parse_numtext_at(s@, i as int) is None),
{
    let j = num_run_end(s, n, i);
    proof {
        lemma_scan_num_range(s@, i as int, j as int);
    }
    let run = s.substring_char(i, j);
    if is_number_text_exec(run) {
        proof {
            assert(run@.len() > 0);
        }
        Some((String::from_str(run), j))
    } else {
        None
    }
}

/// Reads a quoted string.
pub fn parse_jstr_exec(s: &str, n: usize, i: usize) -> (r: Option<(String, usize)>)
    requires
        n == s@.len(),
        i <= n,
    ensures
        (r matches Some(p) ==> parse_jstr_at(s@, i as int) == Some((p.0@, p.1 as int)) && i < p.1
            <= n),
        (r is None ==> parse_jstr_at(s@, i as int) is None),
{
    if i < n && s.get_char(i) == '"' {
        scan_string_exec(s, n, i + 1)
    } else {
        None
    }
}

/// Reads `null` or a quoted string.
pub fn parse_opt_jstr_exec(s: &str, n: usize, i: usize) -> (r: Option<(Option<String>, usize)>)
    requires
        n == s@.len(),
        i <= n,
    ensures
        (r matches Some(p) ==> (parse_opt_jstr_at(s@, i as int) matches Some(q) && q.1 == p.1 as int
            && (match p.0 {
                Some(v) => q.0 == Some(v@),
                None => q.0 is None,
            }) && i < p.1 <= n)),
        (r is None ==> parse_opt_jstr_at(s@, i as int) is None),
{
    match eat_lit_exec(s, n, i, "null") {
        Some(j) => {
            proof {
                reveal_strlit("null");
            }
            Some((None, j))
        },
        None => {
            proof {
                reveal_strlit("null");
            }
            match parse_jstr_exec(s, n, i) {
                Some((v, j)) => Some((Some(v), j)),
                None => None,
            }
        },
    }
}

} // verus!
