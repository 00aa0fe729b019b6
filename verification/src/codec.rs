//! The wire format: canonical JSON text for every record the service
//! exchanges, written and read by verified code.
//!
//! The encoding is canonical: objects hold their fields in declaration
//! order, with no whitespace, strings hold only characters that need no
//! escape (see `json_safe`), and numbers are plain decimal text.  The
//! decoders in this module accept exactly that shape; a body of any other
//! shape decodes to `None` and surfaces as `DecodeError`.

use vstd::prelude::*;
use crate::models::{
    AttendanceEntry, AttendanceEntryView, Ranking, RankingView, RankingStats, Streak, StreakView,
    QueryResult, QueryResultView, StatsDetail, StatsResponse, StatsResponseView,
};
use crate::config::{Config, ConfigView};
use crate::numtext::{dec_of, int_dec_of, fmt_u32, fmt_i32};

verus! {

/// A JSON string literal: the text between quotes, which `json_safe` text
/// never needs to escape.
pub open spec fn jstr(s: Seq<char>) -> Seq<char> {
    "\""@ + s + "\""@
}

/// An optional integer field: decimal text, or `null` when absent.
pub open spec fn opt_int_json(v: Option<i32>) -> Seq<char> {
    match v {
        Some(n) => int_dec_of(n as int),
        None => "null"@,
    }
}

/// An optional string field: a JSON string, or `null` when absent.
pub open spec fn opt_str_json(v: Option<Seq<char>>) -> Seq<char> {
    match v {
        Some(s) => jstr(s),
        None => "null"@,
    }
}

/// The body sent to the login endpoint.
pub open spec fn login_body_spec(username: Seq<char>, password: Seq<char>) -> Seq<char> {
    "{\"username\":"@ + jstr(username) + ",\"password\":"@ + jstr(password) + "}"@
}

/// The body sent to the logging endpoint.
pub open spec fn entry_json_spec(e: AttendanceEntryView) -> Seq<char> {
    "{\"date\":"@ + jstr(e.date) + ",\"time\":"@ + jstr(e.time) + ",\"name\":"@ + jstr(
        e.name,
    ) + ",\"status\":"@ + jstr(e.status) + "}"@
}

/// The per-status counts inside a ranking row.
pub open spec fn ranking_stats_json_spec(s: RankingStats) -> Seq<char> {
    "{\"in_office\":"@ + int_dec_of(s.in_office as int) + ",\"remote\":"@ + int_dec_of(
        s.remote as int,
    ) + ",\"sick\":"@ + int_dec_of(s.sick as int) + ",\"leave\":"@ + int_dec_of(s.leave as int)
        + ",\"days\":"@ + int_dec_of(s.days as int) + "}"@
}

/// One ranking row.
pub open spec fn ranking_json_spec(r: RankingView) -> Seq<char> {
    "{\"name\":"@ + jstr(r.name) + ",\"score\":"@ + r.score + ",\"streak\":"@ + opt_int_json(
        r.streak,
    ) + ",\"average_arrival_time\":"@ + jstr(r.average_arrival_time) + ",\"stats\":"@
        + ranking_stats_json_spec(r.stats) + "}"@
}

/// One streak row.
pub open spec fn streak_json_spec(s: StreakView) -> Seq<char> {
    "{\"username\":"@ + jstr(s.username) + ",\"current_streak\":"@ + int_dec_of(
        s.current_streak as int,
    ) + ",\"max_streak\":"@ + int_dec_of(s.max_streak as int) + ",\"streak_start\":"@
        + opt_str_json(s.streak_start) + "}"@
}

/// One query-result row.
pub open spec fn query_result_json_spec(q: QueryResultView) -> Seq<char> {
    "{\"date\":"@ + jstr(q.date) + ",\"name\":"@ + jstr(q.name) + ",\"status\":"@ + jstr(
        q.status,
    ) + ",\"time\":"@ + jstr(q.time) + ",\"score\":"@ + q.score + ",\"streak\":"@ + opt_int_json(
        q.streak,
    ) + "}"@
}

/// The per-status counts inside a user's statistics.
pub open spec fn stats_detail_json_spec(s: StatsDetail) -> Seq<char> {
    "{\"days\":"@ + dec_of(s.days as nat) + ",\"in_office\":"@ + dec_of(s.in_office as nat)
        + ",\"remote\":"@ + dec_of(s.remote as nat) + ",\"sick\":"@ + dec_of(s.sick as nat)
        + ",\"leave\":"@ + dec_of(s.leave as nat) + "}"@
}

/// A user's aggregate statistics.
pub open spec fn stats_response_json_spec(s: StatsResponseView) -> Seq<char> {
    "{\"average_arrival_time\":"@ + jstr(s.average_arrival_time) + ",\"score\":"@ + s.score
        + ",\"stats\":"@ + stats_detail_json_spec(s.stats) + "}"@
}

/// The persisted session record.
pub open spec fn config_json_spec(c: ConfigView) -> Seq<char> {
    "{\"api_url\":"@ + jstr(c.api_url) + ",\"username\":"@ + jstr(c.username)
        + ",\"api_token\":"@ + opt_str_json(c.api_token) + "}"@
}

/// Appends `s` as a JSON string literal.
fn push_jstr(out: &mut String, s: &str)
    ensures
        final(out)@ == old(out)@ + jstr(s@),
{
    out.append("\"");
    out.append(s);
    out.append("\"");
    proof {
        assert(out@ =~= old(out)@ + jstr(s@));
    }
}

/// Appends an optional integer as decimal text or `null`.
fn push_opt_int(out: &mut String, v: Option<i32>)
    ensures
        final(out)@ == old(out)@ + opt_int_json(v),
{
    match v {
        Some(n) => {
            let t = fmt_i32(n);
            out.append(t.as_str());
        },
        None => {
            out.append("null");
        },
    }
}

/// Writes the login body.
pub fn login_body(username: &str, password: &str) -> (r: String)
    ensures
        r@ == login_body_spec(username@, password@),
{
    let mut out = String::new();
    out.append("{\"username\":");
    push_jstr(&mut out, username);
    out.append(",\"password\":");
    push_jstr(&mut out, password);
    out.append("}");
    proof {
        assert(out@ =~= login_body_spec(username@, password@));
    }
    out
}

/// Writes one attendance entry.
pub fn entry_json(e: &AttendanceEntry) -> (r: String)
    ensures
        r@ == entry_json_spec(e@),
{
    let mut out = String::new();
    out.append("{\"date\":");
    push_jstr(&mut out, e.date.as_str());
    out.append(",\"time\":");
    push_jstr(&mut out, e.time.as_str());
    out.append(",\"name\":");
    push_jstr(&mut out, e.name.as_str());
    out.append(",\"status\":");
    push_jstr(&mut out, e.status.as_str());
    out.append("}");
    proof {
        assert(out@ =~= entry_json_spec(e@));
    }
    out
}

/// Writes the per-status counts of a ranking row.
pub fn ranking_stats_json(s: &RankingStats) -> (r: String)
    ensures
        r@ == ranking_stats_json_spec(*s),
{
    let mut out = String::new();
    out.append("{\"in_office\":");
    out.append(fmt_i32(s.in_office).as_str());
    out.append(",\"remote\":");
    out.append(fmt_i32(s.remote).as_str());
    out.append(",\"sick\":");
    out.append(fmt_i32(s.sick).as_str());
    out.append(",\"leave\":");
    out.append(fmt_i32(s.leave).as_str());
    out.append(",\"days\":");
    out.append(fmt_i32(s.days).as_str());
    out.append("}");
    proof {
        assert(out@ =~= ranking_stats_json_spec(*s));
    }
    out
}

/// Writes one ranking row.
pub fn ranking_json(r: &Ranking) -> (out: String)
    ensures
        out@ == ranking_json_spec(r@),
{
    let mut out = String::new();
    out.append("{\"name\":");
    push_jstr(&mut out, r.name.as_str());
    out.append(",\"score\":");
    out.append(r.score.as_str());
    out.append(",\"streak\":");
    push_opt_int(&mut out, r.streak);
    out.append(",\"average_arrival_time\":");
    push_jstr(&mut out, r.average_arrival_time.as_str());
    out.append(",\"stats\":");
    out.append(ranking_stats_json(&r.stats).as_str());
    out.append("}");
    proof {
        assert(out@ =~= ranking_json_spec(r@));
    }
    out
}

/// Writes one streak row.
pub fn streak_json(s: &Streak) -> (out: String)
    ensures
        out@ == streak_json_spec(s@),
{
    let mut out = String::new();
    out.append("{\"username\":");
    push_jstr(&mut out, s.username.as_str());
    out.append(",\"current_streak\":");
    out.append(fmt_i32(s.current_streak).as_str());
    out.append(",\"max_streak\":");
    out.append(fmt_i32(s.max_streak).as_str());
    out.append(",\"streak_start\":");
    match &s.streak_start {
        Some(d) => push_jstr(&mut out, d.as_str()),
        None => out.append("null"),
    }
    out.append("}");
    proof {
        assert(out@ =~= streak_json_spec(s@));
    }
    out
}

/// Writes one query-result row.
pub fn query_result_json(q: &QueryResult) -> (out: String)
    ensures
        out@ == query_result_json_spec(q@),
{
    let mut out = String::new();
    out.append("{\"date\":");
    push_jstr(&mut out, q.date.as_str());
    out.append(",\"name\":");
    push_jstr(&mut out, q.name.as_str());
    out.append(",\"status\":");
    push_jstr(&mut out, q.status.as_str());
    out.append(",\"time\":");
    push_jstr(&mut out, q.time.as_str());
    out.append(",\"score\":");
    out.append(q.score.as_str());
    out.append(",\"streak\":");
    push_opt_int(&mut out, q.streak);
    out.append("}");
    proof {
        assert(out@ =~= query_result_json_spec(q@));
    }
    out
}

/// Writes the per-status counts of a user's statistics.
pub fn stats_detail_json(s: &StatsDetail) -> (out: String)
    ensures
        out@ == stats_detail_json_spec(*s),
{
    let mut out = String::new();
    out.append("{\"days\":");
    out.append(fmt_u32(s.days).as_str());
    out.append(",\"in_office\":");
    out.append(fmt_u32(s.in_office).as_str());
    out.append(",\"remote\":");
    out.append(fmt_u32(s.remote).as_str());
    out.append(",\"sick\":");
    out.append(fmt_u32(s.sick).as_str());
    out.append(",\"leave\":");
    out.append(fmt_u32(s.leave).as_str());
    out.append("}");
    proof {
        assert(out@ =~= stats_detail_json_spec(*s));
    }
    out
}

/// Writes a user's aggregate statistics.
pub fn stats_response_json(s: &StatsResponse) -> (out: String)
    ensures
        out@ == stats_response_json_spec(s@),
{
    let mut out = String::new();
    out.append("{\"average_arrival_time\":");
    push_jstr(&mut out, s.average_arrival_time.as_str());
    out.append(",\"score\":");
    out.append(s.score.as_str());
    out.append(",\"stats\":");
    out.append(stats_detail_json(&s.stats).as_str());
    out.append("}");
    proof {
        assert(out@ =~= stats_response_json_spec(s@));
    }
    out
}

/// Writes the persisted session record.
pub fn config_json(c: &Config) -> (out: String)
    ensures
        out@ == config_json_spec(c@),
{
    let mut out = String::new();
    out.append("{\"api_url\":");
    push_jstr(&mut out, c.api_url.as_str());
    out.append(",\"username\":");
    push_jstr(&mut out, c.username.as_str());
    out.append(",\"api_token\":");
    match &c.api_token {
        Some(t) => push_jstr(&mut out, t.as_str()),
        None => out.append("null"),
    }
    out.append("}");
    proof {
        assert(out@ =~= config_json_spec(c@));
    }
    out
}

} // verus!
