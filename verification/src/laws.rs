//! The stated laws of the library, proved once and for all.
//!
//! The central one: every record written by `codec` in the canonical wire
//! format reads back through `decode` as the identical value, field for
//! field.  The helper lemmas invert each field reader on the text its
//! writer produces.

use vstd::prelude::*;
use crate::models::{
    is_digit, is_number_text, json_safe, first_dot_from, RankingView, RankingStats, StreakView,
    QueryResultView,
};
use crate::numtext::{
    dec_of, int_dec_of, pow10, lemma_dec_of_digits, lemma_val_of_dec_of, lemma_dec_of_len,
    lemma_pow10_10,
};
use crate::jsonin::{
    eat_lit, is_num_char, parse_uint_at, parse_i32_at, parse_opt_i32_at, parse_numtext_at,
    parse_jstr_at, parse_opt_jstr_at, lemma_scan_string_range, lemma_scan_digits_range,
    lemma_scan_num_range,
};
use crate::codec::{
    jstr, opt_int_json, opt_str_json, ranking_stats_json_spec, ranking_json_spec,
    streak_json_spec, query_result_json_spec,
};
use crate::decode::{
    lit_i32, lit_opt_i32, lit_jstr, lit_opt_jstr, lit_numtext, parse_ranking_stats_at,
    parse_ranking_at, parse_streak_at, parse_query_result_at, ranking_json_parse,
    streak_json_parse, query_result_json_parse,
};
use crate::api::{kv, opt_part, query_parts};

verus! {

/// A literal standing at the joint of a concatenation is matched exactly.
proof fn lemma_eat_lit_concat(pre: Seq<char>, lit: Seq<char>, rest: Seq<char>)
    ensures
        eat_lit(pre + lit + rest, pre.len() as int, lit) == Some((pre.len() + lit.len()) as int),
{
    let s = pre + lit + rest;
    assert(s.subrange(pre.len() as int, (pre.len() + lit.len()) as int) =~= lit);
}

/// A quoted safe string standing at the joint is read back exactly.
proof fn lemma_parse_jstr_concat(pre: Seq<char>, content: Seq<char>, rest: Seq<char>)
    requires
        json_safe(content),
    ensures
        parse_jstr_at(pre + jstr(content) + rest, pre.len() as int) == Some(
            (content, (pre.len() + content.len() + 2) as int),
        ),
{
    let s = pre + jstr(content) + rest;
    let i = pre.len() as int;
    reveal_strlit("\"");
    assert("\""@ =~= seq!['"']);
    assert(s[i] == '"');
    let a = i + 1;
    let b = i + 1 + content.len();
    assert(s[b] == '"');
    assert(forall|k: int| a <= k < b ==> s[k] == content[k - a]);
    lemma_scan_string_range(s, a, b);
    assert(s.subrange(a, b) =~= content);
}

/// The digits of a value standing at the joint, followed by a non-digit,
/// are read back as that value.
proof fn lemma_parse_uint_concat(pre: Seq<char>, n: nat, rest: Seq<char>)
    requires
        n < pow10(10),
        rest.len() == 0 || !is_digit(rest[0]),
    ensures
        parse_uint_at(pre + dec_of(n) + rest, pre.len() as int) == Some(
            (n as u64, (pre.len() + dec_of(n).len()) as int),
        ),
{
    let s = pre + dec_of(n) + rest;
    let i = pre.len() as int;
    let j = i + dec_of(n).len();
    lemma_dec_of_digits(n);
    lemma_dec_of_len(n, 10);
    lemma_val_of_dec_of(n);
    lemma_pow10_10();
    assert(forall|k: int| i <= k < j ==> s[k] == dec_of(n)[k - i]);
    if j < s.len() {
        assert(s[j] == rest[0]);
    }
    lemma_scan_digits_range(s, i, j);
    assert(s.subrange(i, j) =~= dec_of(n));
}

/// The decimal text of an `i32` standing at the joint, followed by a
/// non-digit, is read back as that value.
proof fn lemma_parse_i32_concat(pre: Seq<char>, v: i32, rest: Seq<char>)
    requires
        rest.len() == 0 || !is_digit(rest[0]),
    ensures
        parse_i32_at(pre + int_dec_of(v as int) + rest, pre.len() as int) == Some(
            (v, (pre.len() + int_dec_of(v as int).len()) as int),
        ),
{
    let s = pre + int_dec_of(v as int) + rest;
    let i = pre.len() as int;
    lemma_pow10_10();
    if v >= 0 {
        lemma_dec_of_digits(v as nat);
        assert(int_dec_of(v as int) == dec_of(v as nat));
        assert(s[i] == dec_of(v as nat)[0]);
        assert(is_digit(dec_of(v as nat)[0]));
        assert(s[i] != '-');
        lemma_parse_uint_concat(pre, v as nat, rest);
        assert(pre + dec_of(v as nat) + rest == s);
    } else {
        let m = (-(v as int)) as nat;
        assert(int_dec_of(v as int) == seq!['-'] + dec_of(m));
        assert(s =~= (pre + seq!['-']) + dec_of(m) + rest);
        assert(s[i] == '-');
        lemma_parse_uint_concat(pre + seq!['-'], m, rest);
        assert((pre + seq!['-']).len() == pre.len() + 1);
        assert(parse_uint_at(s, i + 1) == Some(
            (m as u64, (pre.len() + 1 + dec_of(m).len()) as int),
        ));
        assert(m <= 0x8000_0000u64);
    }
}

/// An optional integer field (`null` or decimal text) standing at the
/// joint, followed by a non-digit, is read back exactly.
proof fn lemma_parse_opt_i32_concat(pre: Seq<char>, v: Option<i32>, rest: Seq<char>)
    requires
        rest.len() == 0 || !is_digit(rest[0]),
    ensures
        parse_opt_i32_at(pre + opt_int_json(v) + rest, pre.len() as int) == Some(
            (v, (pre.len() + opt_int_json(v).len()) as int),
        ),
{
    let s = pre + opt_int_json(v) + rest;
    let i = pre.len() as int;
    reveal_strlit("null");
    match v {
        None => {
            lemma_eat_lit_concat(pre, "null"@, rest);
        },
        Some(x) => {
            lemma_dec_of_digits(if x >= 0 { x as nat } else { (-(x as int)) as nat });
            assert(s[i] == int_dec_of(x as int)[0]);
            if x >= 0 {
                assert(is_digit(int_dec_of(x as int)[0]));
            } else {
                assert(int_dec_of(x as int)[0] == '-');
            }
            assert(s[i] != 'n');
            if i + 4 <= s.len() {
                assert(s.subrange(i, i + 4)[0] == s[i]);
                assert(s.subrange(i, i + 4) != "null"@);
            }
            assert(eat_lit(s, i, "null"@) is None);
            lemma_parse_i32_concat(pre, x, rest);
        },
    }
}

/// An optional string field (`null` or a quoted string) standing at the
/// joint is read back exactly.
proof fn lemma_parse_opt_jstr_concat(pre: Seq<char>, v: Option<Seq<char>>, rest: Seq<char>)
    requires
        v matches Some(c) ==> json_safe(c),
    ensures
        parse_opt_jstr_at(pre + opt_str_json(v) + rest, pre.len() as int) == Some(
            (v, (pre.len() + opt_str_json(v).len()) as int),
        ),
{
    let s = pre + opt_str_json(v) + rest;
    let i = pre.len() as int;
    reveal_strlit("null");
    reveal_strlit("\"");
    match v {
        None => {
            lemma_eat_lit_concat(pre, "null"@, rest);
        },
        Some(c) => {
            assert("\""@ =~= seq!['"']);
            assert(s[i] == '"');
            if i + 4 <= s.len() {
                assert(s.subrange(i, i + 4)[0] == s[i]);
                assert(s.subrange(i, i + 4) != "null"@);
            }
            assert(eat_lit(s, i, "null"@) is None);
            lemma_parse_jstr_concat(pre, c, rest);
        },
    }
}

/// The first-dot position lies in range and, when inside, holds a dot.
proof fn lemma_first_dot_props(s: Seq<char>, i: int)
    requires
        0 <= i <= s.len(),
    ensures
        i <= first_dot_from(s, i) <= s.len(),
        first_dot_from(s, i) < s.len() ==> s[first_dot_from(s, i)] == '.',
    decreases s.len() - i,
{
    if i < s.len() && s[i] != '.' {
        lemma_first_dot_props(s, i + 1);
    }
}

/// Well-formed number text holds only number characters.
proof fn lemma_number_text_chars(t: Seq<char>)
    requires
        is_number_text(t),
    ensures
        t.len() > 0,
        forall|k: int| 0 <= k < t.len() ==> is_num_char(#[trigger] t[k]),
{
    let u = if t.len() > 0 && t[0] == '-' {
        t.subrange(1, t.len() as int)
    } else {
        t
    };
    let d = first_dot_from(u, 0);
    lemma_first_dot_props(u, 0);
    assert forall|k: int| 0 <= k < t.len() implies is_num_char(#[trigger] t[k]) by {
        if t[0] == '-' && k == 0 {
        } else {
            let q = if t.len() > 0 && t[0] == '-' {
                k - 1
            } else {
                k
            };
            assert(u[q] == t[k]);
            if d == u.len() {
                assert(is_digit(u[q]));
            } else {
                if q < d {
                    assert(u.subrange(0, d)[q] == u[q]);
                    assert(is_digit(u[q]));
                } else if q == d {
                    assert(u[q] == '.');
                } else {
                    assert(u.subrange(d + 1, u.len() as int)[q - d - 1] == u[q]);
                    assert(is_digit(u[q]));
                }
            }
        }
    }
}

/// Number text standing at the joint, followed by a character that no
/// number holds, is read back digit for digit.
proof fn lemma_parse_numtext_concat(pre: Seq<char>, t: Seq<char>, rest: Seq<char>)
    requires
        is_number_text(t),
        rest.len() == 0 || !is_num_char(rest[0]),
    ensures
        parse_numtext_at(pre + t + rest, pre.len() as int) == Some(
            (t, (pre.len() + t.len()) as int),
        ),
{
    let s = pre + t + rest;
    let i = pre.len() as int;
    let j = i + t.len();
    lemma_number_text_chars(t);
    assert(forall|k: int| i <= k < j ==> s[k] == t[k - i]);
    if j < s.len() {
        assert(s[j] == rest[0]);
    }
    lemma_scan_num_range(s, i, j);
    assert(s.subrange(i, j) =~= t);
}

/// Concatenation reassociates.
proof fn seq_assoc(a: Seq<char>, b: Seq<char>, c: Seq<char>)
    ensures
        a + b + c == a + (b + c),
{
    assert(a + b + c =~= a + (b + c));
}

/// One key-and-`i32` field at the joint reads back exactly.
proof fn step_lit_i32(q: Seq<char>, lit: Seq<char>, x: i32, tail: Seq<char>)
    requires
        tail.len() == 0 || !is_digit(tail[0]),
    ensures
        lit_i32(q + lit + (int_dec_of(x as int) + tail), q.len() as int, lit) == Some(
            (x, (q.len() + lit.len() + int_dec_of(x as int).len()) as int),
        ),
{
    let d = int_dec_of(x as int);
    lemma_eat_lit_concat(q, lit, d + tail);
    seq_assoc(q + lit, d, tail);
    lemma_parse_i32_concat(q + lit, x, tail);
}

/// One key-and-string field at the joint reads back exactly.
proof fn step_lit_jstr(q: Seq<char>, lit: Seq<char>, content: Seq<char>, tail: Seq<char>)
    requires
        json_safe(content),
    ensures
        lit_jstr(q + lit + (jstr(content) + tail), q.len() as int, lit) == Some(
            (content, (q.len() + lit.len() + jstr(content).len()) as int),
        ),
{
    lemma_eat_lit_concat(q, lit, jstr(content) + tail);
    seq_assoc(q + lit, jstr(content), tail);
    lemma_parse_jstr_concat(q + lit, content, tail);
    reveal_strlit("\"");
    assert(jstr(content).len() == content.len() + 2);
}

/// One key-and-number field at the joint reads back exactly.
proof fn step_lit_numtext(q: Seq<char>, lit: Seq<char>, x: Seq<char>, tail: Seq<char>)
    requires
        is_number_text(x),
        tail.len() == 0 || !is_num_char(tail[0]),
    ensures
        lit_numtext(q + lit + (x + tail), q.len() as int, lit) == Some(
            (x, (q.len() + lit.len() + x.len()) as int),
        ),
{
    lemma_eat_lit_concat(q, lit, x + tail);
    seq_assoc(q + lit, x, tail);
    lemma_parse_numtext_concat(q + lit, x, tail);
}

/// One key-and-optional-`i32` field at the joint reads back exactly.
proof fn step_lit_opt_i32(q: Seq<char>, lit: Seq<char>, x: Option<i32>, tail: Seq<char>)
    requires
        tail.len() == 0 || !is_digit(tail[0]),
    ensures
        lit_opt_i32(q + lit + (opt_int_json(x) + tail), q.len() as int, lit) == Some(
            (x, (q.len() + lit.len() + opt_int_json(x).len()) as int),
        ),
{
    lemma_eat_lit_concat(q, lit, opt_int_json(x) + tail);
    seq_assoc(q + lit, opt_int_json(x), tail);
    lemma_parse_opt_i32_concat(q + lit, x, tail);
}

/// One key-and-optional-string field at the joint reads back exactly.
proof fn step_lit_opt_jstr(q: Seq<char>, lit: Seq<char>, x: Option<Seq<char>>, tail: Seq<char>)
    requires
        x matches Some(c) ==> json_safe(c),
    ensures
        lit_opt_jstr(q + lit + (opt_str_json(x) + tail), q.len() as int, lit) == Some(
            (x, (q.len() + lit.len() + opt_str_json(x).len()) as int),
        ),
{
    lemma_eat_lit_concat(q, lit, opt_str_json(x) + tail);
    seq_assoc(q + lit, opt_str_json(x), tail);
    lemma_parse_opt_jstr_concat(q + lit, x, tail);
}

/// The written per-status counts of a ranking row read back exactly.
#[verifier::rlimit(60)]
proof fn lemma_ranking_stats_roundtrip(pre: Seq<char>, v: RankingStats, rest: Seq<char>)
    ensures
        parse_ranking_stats_at(pre + ranking_stats_json_spec(v) + rest, pre.len() as int) == Some(
            (v, (pre.len() + ranking_stats_json_spec(v).len()) as int),
        ),
{
    let enc = ranking_stats_json_spec(v);
    let s = pre + enc + rest;
    let d1 = int_dec_of(v.in_office as int);
    let d2 = int_dec_of(v.remote as int);
    let d3 = int_dec_of(v.sick as int);
    let d4 = int_dec_of(v.leave as int);
    let d5 = int_dec_of(v.days as int);
    let l1 = "{\"in_office\":"@;
    let l2 = ",\"remote\":"@;
    let l3 = ",\"sick\":"@;
    let l4 = ",\"leave\":"@;
    let l5 = ",\"days\":"@;
    let l6 = "}"@;
    let q1 = pre + l1;
    let q2 = q1 + d1;
    let q3 = q2 + l2;
    let q4 = q3 + d2;
    let q5 = q4 + l3;
    let q6 = q5 + d3;
    let q7 = q6 + l4;
    let q8 = q7 + d4;
    let q9 = q8 + l5;
    let q10 = q9 + d5;
    // Normalize the whole text to prefix-plus-suffix at every field joint.
    seq_assoc(pre, l1 + d1 + l2 + d2 + l3 + d3 + l4 + d4 + l5 + d5, l6);
    seq_assoc(pre, l1 + d1 + l2 + d2 + l3 + d3 + l4 + d4 + l5, d5);
    seq_assoc(pre, l1 + d1 + l2 + d2 + l3 + d3 + l4 + d4, l5);
    seq_assoc(pre, l1 + d1 + l2 + d2 + l3 + d3 + l4, d4);
    seq_assoc(pre, l1 + d1 + l2 + d2 + l3 + d3, l4);
    seq_assoc(pre, l1 + d1 + l2 + d2 + l3, d3);
    seq_assoc(pre, l1 + d1 + l2 + d2, l3);
    seq_assoc(pre, l1 + d1 + l2, d2);
    seq_assoc(pre, l1 + d1, l2);
    seq_assoc(pre, l1, d1);
    assert(pre + enc == q10 + l6);
    let m10 = l6 + rest;
    let m9 = d5 + m10;
    let m8 = l5 + m9;
    let m7 = d4 + m8;
    let m6 = l4 + m7;
    let m5 = d3 + m6;
    let m4 = l3 + m5;
    let m3 = d2 + m4;
    let m2 = l2 + m3;
    let m1 = d1 + m2;
    seq_assoc(q10, l6, rest);
    assert(s == q10 + m10);
    seq_assoc(q9, d5, m10);
    assert(s == q9 + m9);
    seq_assoc(q8, l5, m9);
    assert(s == q8 + m8);
    seq_assoc(q7, d4, m8);
    assert(s == q7 + m7);
    seq_assoc(q6, l4, m7);
    assert(s == q6 + m6);
    seq_assoc(q5, d3, m6);
    assert(s == q5 + m5);
    seq_assoc(q4, l3, m5);
    assert(s == q4 + m4);
    seq_assoc(q3, d2, m4);
    assert(s == q3 + m3);
    seq_assoc(q2, l2, m3);
    assert(s == q2 + m2);
    seq_assoc(q1, d1, m2);
    assert(s == q1 + m1);
    seq_assoc(pre, l1, m1);
    assert(s == pre + l1 + m1);
    reveal_strlit(",\"remote\":");
    reveal_strlit(",\"sick\":");
    reveal_strlit(",\"leave\":");
    reveal_strlit(",\"days\":");
    reveal_strlit("}");
    assert(m2[0] == ',' && m4[0] == ',' && m6[0] == ',' && m8[0] == ',' && m10[0] == '}');
    step_lit_i32(pre, l1, v.in_office, m2);
    assert(s == q2 + l2 + m3);
    step_lit_i32(q2, l2, v.remote, m4);
    assert(s == q4 + l3 + m5);
    step_lit_i32(q4, l3, v.sick, m6);
    assert(s == q6 + l4 + m7);
    step_lit_i32(q6, l4, v.leave, m8);
    assert(s == q8 + l5 + m9);
    step_lit_i32(q8, l5, v.days, m10);
    assert(s == q10 + l6 + rest);
    lemma_eat_lit_concat(q10, l6, rest);
    assert(parse_ranking_stats_at(s, pre.len() as int) == Some(
        (v, (pre.len() + enc.len()) as int),
    ));
}

/// The written form of a ranking row reads back exactly.
#[verifier::rlimit(100)]
proof fn lemma_ranking_at_roundtrip(pre: Seq<char>, v: RankingView, rest: Seq<char>)
    requires
        v.wf(),
    ensures
        parse_ranking_at(pre + ranking_json_spec(v) + rest, pre.len() as int) == Some(
            (v, (pre.len() + ranking_json_spec(v).len()) as int),
        ),
{
    let enc = ranking_json_spec(v);
    let s = pre + enc + rest;
    let f1 = jstr(v.name);
    let f2 = v.score;
    let f3 = opt_int_json(v.streak);
    let f4 = jstr(v.average_arrival_time);
    let f5 = ranking_stats_json_spec(v.stats);
    let l1 = "{\"name\":"@;
    let l2 = ",\"score\":"@;
    let l3 = ",\"streak\":"@;
    let l4 = ",\"average_arrival_time\":"@;
    let l5 = ",\"stats\":"@;
    let l6 = "}"@;
    let q1 = pre + l1;
    let q2 = q1 + f1;
    let q3 = q2 + l2;
    let q4 = q3 + f2;
    let q5 = q4 + l3;
    let q6 = q5 + f3;
    let q7 = q6 + l4;
    let q8 = q7 + f4;
    let q9 = q8 + l5;
    let q10 = q9 + f5;
    seq_assoc(pre, l1 + f1 + l2 + f2 + l3 + f3 + l4 + f4 + l5 + f5, l6);
    seq_assoc(pre, l1 + f1 + l2 + f2 + l3 + f3 + l4 + f4 + l5, f5);
    seq_assoc(pre, l1 + f1 + l2 + f2 + l3 + f3 + l4 + f4, l5);
    seq_assoc(pre, l1 + f1 + l2 + f2 + l3 + f3 + l4, f4);
    seq_assoc(pre, l1 + f1 + l2 + f2 + l3 + f3, l4);
    seq_assoc(pre, l1 + f1 + l2 + f2 + l3, f3);
    seq_assoc(pre, l1 + f1 + l2 + f2, l3);
    seq_assoc(pre, l1 + f1 + l2, f2);
    seq_assoc(pre, l1 + f1, l2);
    seq_assoc(pre, l1, f1);
    assert(pre + enc == q10 + l6);
    let m10 = l6 + rest;
    let m9 = f5 + m10;
    let m8 = l5 + m9;
    let m7 = f4 + m8;
    let m6 = l4 + m7;
    let m5 = f3 + m6;
    let m4 = l3 + m5;
    let m3 = f2 + m4;
    let m2 = l2 + m3;
    let m1 = f1 + m2;
    seq_assoc(q10, l6, rest);
    assert(s == q10 + m10);
    seq_assoc(q9, f5, m10);
    assert(s == q9 + m9);
    seq_assoc(q8, l5, m9);
    assert(s == q8 + m8);
    seq_assoc(q7, f4, m8);
    assert(s == q7 + m7);
    seq_assoc(q6, l4, m7);
    assert(s == q6 + m6);
    seq_assoc(q5, f3, m6);
    assert(s == q5 + m5);
    seq_assoc(q4, l3, m5);
    assert(s == q4 + m4);
    seq_assoc(q3, f2, m4);
    assert(s == q3 + m3);
    seq_assoc(q2, l2, m3);
    assert(s == q2 + m2);
    seq_assoc(q1, f1, m2);
    assert(s == q1 + m1);
    seq_assoc(pre, l1, m1);
    assert(s == pre + l1 + m1);
    reveal_strlit(",\"score\":");
    reveal_strlit(",\"streak\":");
    reveal_strlit(",\"average_arrival_time\":");
    reveal_strlit(",\"stats\":");
    reveal_strlit("}");
    assert(m2[0] == ',' && m4[0] == ',' && m6[0] == ',' && m8[0] == ',' && m10[0] == '}');
    step_lit_jstr(pre, l1, v.name, m2);
    assert(s == q2 + l2 + m3);
    step_lit_numtext(q2, l2, v.score, m4);
    assert(s == q4 + l3 + m5);
    step_lit_opt_i32(q4, l3, v.streak, m6);
    assert(s == q6 + l4 + m7);
    step_lit_jstr(q6, l4, v.average_arrival_time, m8);
    assert(s == q8 + l5 + m9);
    lemma_eat_lit_concat(q8, l5, m9);
    assert(s == q9 + f5 + m10);
    lemma_ranking_stats_roundtrip(q9, v.stats, m10);
    assert(s == q10 + l6 + rest);
    lemma_eat_lit_concat(q10, l6, rest);
    assert(lit_jstr(s, pre.len() as int, l1) == Some((v.name, q2.len() as int)));
    assert(lit_numtext(s, q2.len() as int, l2) == Some((v.score, q4.len() as int)));
    assert(lit_opt_i32(s, q4.len() as int, l3) == Some((v.streak, q6.len() as int)));
    assert(lit_jstr(s, q6.len() as int, l4) == Some((v.average_arrival_time, q8.len() as int)));
    assert(eat_lit(s, q8.len() as int, l5) == Some(q9.len() as int));
    assert(parse_ranking_stats_at(s, q9.len() as int) == Some((v.stats, q10.len() as int)));
    assert(eat_lit(s, q10.len() as int, l6) == Some((q10.len() + l6.len()) as int));
    assert((q10.len() + l6.len()) as int == (pre.len() + enc.len()) as int);
    assert(parse_ranking_at(s, pre.len() as int) == Some((v, (pre.len() + enc.len()) as int)));
}

/// The written form of a streak row reads back exactly.
#[verifier::rlimit(100)]
proof fn lemma_streak_at_roundtrip(pre: Seq<char>, v: StreakView, rest: Seq<char>)
    requires
        v.wf(),
    ensures
        parse_streak_at(pre + streak_json_spec(v) + rest, pre.len() as int) == Some(
            (v, (pre.len() + streak_json_spec(v).len()) as int),
        ),
{
    let enc = streak_json_spec(v);
    let s = pre + enc + rest;
    let f1 = jstr(v.username);
    let f2 = int_dec_of(v.current_streak as int);
    let f3 = int_dec_of(v.max_streak as int);
    let f4 = opt_str_json(v.streak_start);
    let l1 = "{\"username\":"@;
    let l2 = ",\"current_streak\":"@;
    let l3 = ",\"max_streak\":"@;
    let l4 = ",\"streak_start\":"@;
    let l5 = "}"@;
    let q1 = pre + l1;
    let q2 = q1 + f1;
    let q3 = q2 + l2;
    let q4 = q3 + f2;
    let q5 = q4 + l3;
    let q6 = q5 + f3;
    let q7 = q6 + l4;
    let q8 = q7 + f4;
    seq_assoc(pre, l1 + f1 + l2 + f2 + l3 + f3 + l4 + f4, l5);
    seq_assoc(pre, l1 + f1 + l2 + f2 + l3 + f3 + l4, f4);
    seq_assoc(pre, l1 + f1 + l2 + f2 + l3 + f3, l4);
    seq_assoc(pre, l1 + f1 + l2 + f2 + l3, f3);
    seq_assoc(pre, l1 + f1 + l2 + f2, l3);
    seq_assoc(pre, l1 + f1 + l2, f2);
    seq_assoc(pre, l1 + f1, l2);
    seq_assoc(pre, l1, f1);
    assert(pre + enc == q8 + l5);
    let m8 = l5 + rest;
    let m7 = f4 + m8;
    let m6 = l4 + m7;
    let m5 = f3 + m6;
    let m4 = l3 + m5;
    let m3 = f2 + m4;
    let m2 = l2 + m3;
    let m1 = f1 + m2;
    seq_assoc(q8, l5, rest);
    assert(s == q8 + m8);
    seq_assoc(q7, f4, m8);
    assert(s == q7 + m7);
    seq_assoc(q6, l4, m7);
    assert(s == q6 + m6);
    seq_assoc(q5, f3, m6);
    assert(s == q5 + m5);
    seq_assoc(q4, l3, m5);
    assert(s == q4 + m4);
    seq_assoc(q3, f2, m4);
    assert(s == q3 + m3);
    seq_assoc(q2, l2, m3);
    assert(s == q2 + m2);
    seq_assoc(q1, f1, m2);
    assert(s == q1 + m1);
    seq_assoc(pre, l1, m1);
    assert(s == pre + l1 + m1);
    reveal_strlit(",\"current_streak\":");
    reveal_strlit(",\"max_streak\":");
    reveal_strlit(",\"streak_start\":");
    reveal_strlit("}");
    assert(m2[0] == ',' && m4[0] == ',' && m6[0] == ',' && m8[0] == '}');
    step_lit_jstr(pre, l1, v.username, m2);
    assert(s == q2 + l2 + m3);
    step_lit_i32(q2, l2, v.current_streak, m4);
    assert(s == q4 + l3 + m5);
    step_lit_i32(q4, l3, v.max_streak, m6);
    assert(s == q6 + l4 + m7);
    step_lit_opt_jstr(q6, l4, v.streak_start, m8);
    assert(s == q8 + l5 + rest);
    lemma_eat_lit_concat(q8, l5, rest);
    assert(lit_jstr(s, pre.len() as int, l1) == Some((v.username, q2.len() as int)));
    assert(lit_i32(s, q2.len() as int, l2) == Some((v.current_streak, q4.len() as int)));
    assert(lit_i32(s, q4.len() as int, l3) == Some((v.max_streak, q6.len() as int)));
    assert(lit_opt_jstr(s, q6.len() as int, l4) == Some((v.streak_start, q8.len() as int)));
    assert(eat_lit(s, q8.len() as int, l5) == Some((q8.len() + l5.len()) as int));
    assert((q8.len() + l5.len()) as int == (pre.len() + enc.len()) as int);
    assert(parse_streak_at(s, pre.len() as int) == Some((v, (pre.len() + enc.len()) as int)));
}

/// The written form of a query row reads back exactly.
#[verifier::rlimit(100)]
proof fn lemma_query_result_at_roundtrip(pre: Seq<char>, v: QueryResultView, rest: Seq<char>)
    requires
        v.wf(),
    ensures
        parse_query_result_at(pre + query_result_json_spec(v) + rest, pre.len() as int) == Some(
            (v, (pre.len() + query_result_json_spec(v).len()) as int),
        ),
{
    let enc = query_result_json_spec(v);
    let s = pre + enc + rest;
    let f1 = jstr(v.date);
    let f2 = jstr(v.name);
    let f3 = jstr(v.status);
    let f4 = jstr(v.time);
    let f5 = v.score;
    let f6 = opt_int_json(v.streak);
    let l1 = "{\"date\":"@;
    let l2 = ",\"name\":"@;
    let l3 = ",\"status\":"@;
    let l4 = ",\"time\":"@;
    let l5 = ",\"score\":"@;
    let l6 = ",\"streak\":"@;
    let l7 = "}"@;
    let q1 = pre + l1;
    let q2 = q1 + f1;
    let q3 = q2 + l2;
    let q4 = q3 + f2;
    let q5 = q4 + l3;
    let q6 = q5 + f3;
    let q7 = q6 + l4;
    let q8 = q7 + f4;
    let q9 = q8 + l5;
    let q10 = q9 + f5;
    let q11 = q10 + l6;
    let q12 = q11 + f6;
    seq_assoc(pre, l1 + f1 + l2 + f2 + l3 + f3 + l4 + f4 + l5 + f5 + l6 + f6, l7);
    seq_assoc(pre, l1 + f1 + l2 + f2 + l3 + f3 + l4 + f4 + l5 + f5 + l6, f6);
    seq_assoc(pre, l1 + f1 + l2 + f2 + l3 + f3 + l4 + f4 + l5 + f5, l6);
    seq_assoc(pre, l1 + f1 + l2 + f2 + l3 + f3 + l4 + f4 + l5, f5);
    seq_assoc(pre, l1 + f1 + l2 + f2 + l3 + f3 + l4 + f4, l5);
    seq_assoc(pre, l1 + f1 + l2 + f2 + l3 + f3 + l4, f4);
    seq_assoc(pre, l1 + f1 + l2 + f2 + l3 + f3, l4);
    seq_assoc(pre, l1 + f1 + l2 + f2 + l3, f3);
    seq_assoc(pre, l1 + f1 + l2 + f2, l3);
    seq_assoc(pre, l1 + f1 + l2, f2);
    seq_assoc(pre, l1 + f1, l2);
    seq_assoc(pre, l1, f1);
    assert(pre + enc == q12 + l7);
    let m12 = l7 + rest;
    let m11 = f6 + m12;
    let m10 = l6 + m11;
    let m9 = f5 + m10;
    let m8 = l5 + m9;
    let m7 = f4 + m8;
    let m6 = l4 + m7;
    let m5 = f3 + m6;
    let m4 = l3 + m5;
    let m3 = f2 + m4;
    let m2 = l2 + m3;
    let m1 = f1 + m2;
    seq_assoc(q12, l7, rest);
    assert(s == q12 + m12);
    seq_assoc(q11, f6, m12);
    assert(s == q11 + m11);
    seq_assoc(q10, l6, m11);
    assert(s == q10 + m10);
    seq_assoc(q9, f5, m10);
    assert(s == q9 + m9);
    seq_assoc(q8, l5, m9);
    assert(s == q8 + m8);
    seq_assoc(q7, f4, m8);
    assert(s == q7 + m7);
    seq_assoc(q6, l4, m7);
    assert(s == q6 + m6);
    seq_assoc(q5, f3, m6);
    assert(s == q5 + m5);
    seq_assoc(q4, l3, m5);
    assert(s == q4 + m4);
    seq_assoc(q3, f2, m4);
    assert(s == q3 + m3);
    seq_assoc(q2, l2, m3);
    assert(s == q2 + m2);
    seq_assoc(q1, f1, m2);
    assert(s == q1 + m1);
    seq_assoc(pre, l1, m1);
    assert(s == pre + l1 + m1);
    reveal_strlit(",\"name\":");
    reveal_strlit(",\"status\":");
    reveal_strlit(",\"time\":");
    reveal_strlit(",\"score\":");
    reveal_strlit(",\"streak\":");
    reveal_strlit("}");
    assert(m2[0] == ',' && m4[0] == ',' && m6[0] == ',' && m8[0] == ',' && m10[0] == ',' && m12[0]
        == '}');
    step_lit_jstr(pre, l1, v.date, m2);
    assert(s == q2 + l2 + m3);
    step_lit_jstr(q2, l2, v.name, m4);
    assert(s == q4 + l3 + m5);
    step_lit_jstr(q4, l3, v.status, m6);
    assert(s == q6 + l4 + m7);
    step_lit_jstr(q6, l4, v.time, m8);
    assert(s == q8 + l5 + m9);
    step_lit_numtext(q8, l5, v.score, m10);
    assert(s == q10 + l6 + m11);
    step_lit_opt_i32(q10, l6, v.streak, m12);
    assert(s == q12 + l7 + rest);
    lemma_eat_lit_concat(q12, l7, rest);
    assert(lit_jstr(s, pre.len() as int, l1) == Some((v.date, q2.len() as int)));
    assert(lit_jstr(s, q2.len() as int, l2) == Some((v.name, q4.len() as int)));
    assert(lit_jstr(s, q4.len() as int, l3) == Some((v.status, q6.len() as int)));
    assert(lit_jstr(s, q6.len() as int, l4) == Some((v.time, q8.len() as int)));
    assert(lit_numtext(s, q8.len() as int, l5) == Some((v.score, q10.len() as int)));
    assert(lit_opt_i32(s, q10.len() as int, l6) == Some((v.streak, q12.len() as int)));
    assert(eat_lit(s, q12.len() as int, l7) == Some((q12.len() + l7.len()) as int));
    assert((q12.len() + l7.len()) as int == (pre.len() + enc.len()) as int);
    assert(parse_query_result_at(s, pre.len() as int) == Some(
        (v, (pre.len() + enc.len()) as int),
    ));
}

/// Round trip of a ranking row: writing any well-formed row in the wire
/// format and reading the whole text back yields the identical row, field
/// for field.
pub proof fn lemma_ranking_roundtrip(v: RankingView)
    requires
        v.wf(),
    ensures
        ranking_json_parse(ranking_json_spec(v)) == Some(v),
{
    let enc = ranking_json_spec(v);
    assert(Seq::<char>::empty() + enc + Seq::<char>::empty() =~= enc);
    lemma_ranking_at_roundtrip(Seq::empty(), v, Seq::empty());
}

/// Round trip of a streak row: writing any well-formed row in the wire
/// format and reading the whole text back yields the identical row, field
/// for field.
pub proof fn lemma_streak_roundtrip(v: StreakView)
    requires
        v.wf(),
    ensures
        streak_json_parse(streak_json_spec(v)) == Some(v),
{
    let enc = streak_json_spec(v);
    assert(Seq::<char>::empty() + enc + Seq::<char>::empty() =~= enc);
    lemma_streak_at_roundtrip(Seq::empty(), v, Seq::empty());
}

/// Round trip of a query row: writing any well-formed row in the wire
/// format and reading the whole text back yields the identical row, field
/// for field.
pub proof fn lemma_query_result_roundtrip(v: QueryResultView)
    requires
        v.wf(),
    ensures
        query_result_json_parse(query_result_json_spec(v)) == Some(v),
{
    let enc = query_result_json_spec(v);
    assert(Seq::<char>::empty() + enc + Seq::<char>::empty() =~= enc);
    lemma_query_result_at_roundtrip(Seq::empty(), v, Seq::empty());
}

/// Whether `p` is the `key=value` pair of one explicitly supplied query
/// parameter.
pub open spec fn part_supplied(
    p: Seq<char>,
    from: Option<Seq<char>>,
    to: Option<Seq<char>>,
    user: Option<Seq<char>>,
    mode: Seq<char>,
    status: Option<Seq<char>>,
    limit: Option<usize>,
) -> bool {
    (from matches Some(x) && p == kv("from"@, x)) || (to matches Some(x) && p == kv("to"@, x)) || (
    user matches Some(x) && p == kv("user"@, x)) || p == kv("mode"@, mode) || (status matches Some(
        x,
    ) && p == kv("status"@, x)) || (limit matches Some(n) && p == kv("limit"@, dec_of(n as nat)))
}

/// The one or zero parts an option contributes, counted.
pub open spec fn opt_count(x: Option<Seq<char>>) -> int {
    if x is Some {
        1
    } else {
        0
    }
}

/// The place of a query parameter in the fixed order
/// from, to, user, mode, status, limit, told apart by the first letter of
/// its key — the six keys all start differently.
pub open spec fn param_rank(p: Seq<char>) -> int {
    if p.len() == 0 {
        6
    } else if p[0] == 'f' {
        0
    } else if p[0] == 't' {
        1
    } else if p[0] == 'u' {
        2
    } else if p[0] == 'm' {
        3
    } else if p[0] == 's' {
        4
    } else if p[0] == 'l' {
        5
    } else {
        6
    }
}

/// The query string holds exactly the supplied parameters: `mode` is
/// always among the parts, every part is a supplied `key=value` pair, and
/// there are exactly as many parts as supplied parameters — in the fixed
/// order from, to, user, mode, status, limit, which is how `query_parts`
/// lays them out.
pub proof fn lemma_query_parts_exact(
    from: Option<Seq<char>>,
    to: Option<Seq<char>>,
    user: Option<Seq<char>>,
    mode: Seq<char>,
    status: Option<Seq<char>>,
    limit: Option<usize>,
)
    ensures
        exists|k: int|
            0 <= k < query_parts(from, to, user, mode, status, limit).len() && query_parts(
                from,
                to,
                user,
                mode,
                status,
                limit,
            )[k] == kv("mode"@, mode),
        forall|k: int|
            0 <= k < query_parts(from, to, user, mode, status, limit).len() ==> part_supplied(
                #[trigger] query_parts(from, to, user, mode, status, limit)[k],
                from,
                to,
                user,
                mode,
                status,
                limit,
            ),
        query_parts(from, to, user, mode, status, limit).len() == 1 + opt_count(from) + opt_count(
            to,
        ) + opt_count(user) + opt_count(status) + (if limit is Some {
            1int
        } else {
            0
        }),
        forall|i: int, j: int|
            0 <= i < j < query_parts(from, to, user, mode, status, limit).len() ==> param_rank(
                #[trigger] query_parts(from, to, user, mode, status, limit)[i],
            ) < param_rank(#[trigger] query_parts(from, to, user, mode, status, limit)[j]),
{
    let ps = query_parts(from, to, user, mode, status, limit);
    let a = opt_part("from"@, from);
    let b = opt_part("to"@, to);
    let c = opt_part("user"@, user);
    let m = seq![kv("mode"@, mode)];
    let d = opt_part("status"@, status);
    let e = match limit {
        Some(n) => seq![kv("limit"@, dec_of(n as nat))],
        None => Seq::<Seq<char>>::empty(),
    };
    let idx = a.len() + b.len() + c.len();
    assert(ps[idx as int] == kv("mode"@, mode));
    assert forall|k: int| 0 <= k < ps.len() implies part_supplied(
        #[trigger] ps[k],
        from,
        to,
        user,
        mode,
        status,
        limit,
    ) by {
        if k < a.len() {
            assert(ps[k] == a[k]);
        } else if k < a.len() + b.len() {
            assert(ps[k] == b[k - a.len()]);
        } else if k < a.len() + b.len() + c.len() {
            assert(ps[k] == c[k - a.len() - b.len()]);
        } else if k < a.len() + b.len() + c.len() + 1 {
            assert(ps[k] == kv("mode"@, mode));
        } else if k < a.len() + b.len() + c.len() + 1 + d.len() {
            assert(ps[k] == d[k - a.len() - b.len() - c.len() - 1]);
        } else {
            assert(ps[k] == e[k - a.len() - b.len() - c.len() - 1 - d.len()]);
        }
    }
    let n1 = a.len() as int;
    let n2 = n1 + b.len();
    let n3 = n2 + c.len();
    let n4 = n3 + 1;
    let n5 = n4 + d.len();
    assert forall|k: int| 0 <= k < ps.len() implies param_rank(#[trigger] ps[k]) == (if k < n1 {
        0int
    } else if k < n2 {
        1
    } else if k < n3 {
        2
    } else if k < n4 {
        3
    } else if k < n5 {
        4
    } else {
        5
    }) by {
        reveal_strlit("from");
        reveal_strlit("to");
        reveal_strlit("user");
        reveal_strlit("mode");
        reveal_strlit("status");
        reveal_strlit("limit");
        reveal_strlit("=");
        if k < n1 {
            assert(ps[k] == a[k]);
            assert(ps[k][0] == 'f');
        } else if k < n2 {
            assert(ps[k] == b[k - n1]);
            assert(ps[k][0] == 't');
        } else if k < n3 {
            assert(ps[k] == c[k - n2]);
            assert(ps[k][0] == 'u');
        } else if k < n4 {
            assert(ps[k] == kv("mode"@, mode));
            assert(ps[k][0] == 'm');
        } else if k < n5 {
            assert(ps[k] == d[k - n4]);
            assert(ps[k][0] == 's');
        } else {
            assert(ps[k] == e[k - n5]);
            assert(ps[k][0] == 'l');
        }
    }
}

/// Every token a successful login yields is non-empty, so the session
/// written by `Config::with_login` afterwards carries a non-empty
/// credential.
pub proof fn lemma_login_token_nonempty(body: Seq<char>)
    ensures
        crate::decode::login_token_spec(body) matches Some(t) ==> t.len() > 0,
{
}

} // verus!
