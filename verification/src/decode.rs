//! Typed readers for the canonical wire format: one parser per record the
//! service returns, each an executable function proved equal to its
//! specification-level parser.

use vstd::prelude::*;
use crate::config::{Config, ConfigView};
use crate::models::{
    Ranking, RankingView, RankingStats, Streak, StreakView, QueryResult, QueryResultView,
    StatsDetail, StatsResponse, StatsResponseView,
};
use crate::jsonin::{
    eat_lit, parse_i32_at, parse_u32_at, parse_opt_i32_at, parse_numtext_at, parse_jstr_at,
    parse_opt_jstr_at, eat_lit_exec, parse_i32_exec, parse_u32_exec, parse_opt_i32_exec,
    parse_numtext_exec, parse_jstr_exec, parse_opt_jstr_exec,
};

verus! {

/// A literal key followed by an `i32` value.
pub open spec fn lit_i32(s: Seq<char>, i: int, lit: Seq<char>) -> Option<(i32, int)> {
    match eat_lit(s, i, lit) {
        Some(j) => parse_i32_at(s, j),
        None => None,
    }
}

/// A literal key followed by a `u32` value.
pub open spec fn lit_u32(s: Seq<char>, i: int, lit: Seq<char>) -> Option<(u32, int)> {
    match eat_lit(s, i, lit) {
        Some(j) => parse_u32_at(s, j),
        None => None,
    }
}

/// A literal key followed by an optional `i32` value.
pub open spec fn lit_opt_i32(s: Seq<char>, i: int, lit: Seq<char>) -> Option<(Option<i32>, int)> {
    match eat_lit(s, i, lit) {
        Some(j) => parse_opt_i32_at(s, j),
        None => None,
    }
}

/// A literal key followed by a quoted string.
pub open spec fn lit_jstr(s: Seq<char>, i: int, lit: Seq<char>) -> Option<(Seq<char>, int)> {
    match eat_lit(s, i, lit) {
        Some(j) => parse_jstr_at(s, j),
        None => None,
    }
}

/// A literal key followed by an optional quoted string.
pub open spec fn lit_opt_jstr(s: Seq<char>, i: int, lit: Seq<char>) -> Option<
    (Option<Seq<char>>, int),
> {
    match eat_lit(s, i, lit) {
        Some(j) => parse_opt_jstr_at(s, j),
        None => None,
    }
}

/// A literal key followed by number text.
pub open spec fn lit_numtext(s: Seq<char>, i: int, lit: Seq<char>) -> Option<(Seq<char>, int)> {
    match eat_lit(s, i, lit) {
        Some(j) => parse_numtext_at(s, j),
        None => None,
    }
}

/// Reads a literal key and an `i32`.
fn lit_i32_exec(s: &str, n: usize, i: usize, lit: &str) -> (r: Option<(i32, usize)>)
    requires
        n == s@.len(),
        i <= n,
    ensures
        (r matches Some(p) ==> lit_i32(s@, i as int, lit@) == Some((p.0, p.1 as int)) && i < p.1
            <= n),
        (r is None ==> lit_i32(s@, i as int, lit@) is None),
{
    match eat_lit_exec(s, n, i, lit) {
        Some(j) => parse_i32_exec(s, n, j),
        None => None,
    }
}

/// Reads a literal key and a `u32`.
fn lit_u32_exec(s: &str, n: usize, i: usize, lit: &str) -> (r: Option<(u32, usize)>)
    requires
        n == s@.len(),
        i <= n,
    ensures
        (r matches Some(p) ==> lit_u32(s@, i as int, lit@) == Some((p.0, p.1 as int)) && i < p.1
            <= n),
        (r is None ==> lit_u32(s@, i as int, lit@) is None),
{
    match eat_lit_exec(s, n, i, lit) {
        Some(j) => parse_u32_exec(s, n, j),
        None => None,
    }
}

/// Reads a literal key and an optional `i32`.
fn lit_opt_i32_exec(s: &str, n: usize, i: usize, lit: &str) -> (r: Option<(Option<i32>, usize)>)
    requires
        n == s@.len(),
        i <= n,
    ensures
        (r matches Some(p) ==> lit_opt_i32(s@, i as int, lit@) == Some((p.0, p.1 as int)) && i
            < p.1 <= n),
        (r is None ==> lit_opt_i32(s@, i as int, lit@) is None),
{
    match eat_lit_exec(s, n, i, lit) {
        Some(j) => parse_opt_i32_exec(s, n, j),
        None => None,
    }
}

/// Reads a literal key and a quoted string.
fn lit_jstr_exec(s: &str, n: usize, i: usize, lit: &str) -> (r: Option<(String, usize)>)
    requires
        n == s@.len(),
        i <= n,
    ensures
        (r matches Some(p) ==> lit_jstr(s@, i as int, lit@) == Some((p.0@, p.1 as int)) && i < p.1
            <= n),
        (r is None ==> lit_jstr(s@, i as int, lit@) is None),
{
    match eat_lit_exec(s, n, i, lit) {
        Some(j) => parse_jstr_exec(s, n, j),
        None => None,
    }
}

/// Reads a literal key and an optional quoted string.
fn lit_opt_jstr_exec(s: &str, n: usize, i: usize, lit: &str) -> (r: Option<
    (Option<String>, usize),
>)
    requires
        n == s@.len(),
        i <= n,
    ensures
        (r matches Some(p) ==> (lit_opt_jstr(s@, i as int, lit@) matches Some(q) && q.1 == p.1 as int
            && (match p.0 {
                Some(v) => q.0 == Some(v@),
                None => q.0 is None,
            }) && i < p.1 <= n)),
        (r is None ==> lit_opt_jstr(s@, i as int, lit@) is None),
{
    match eat_lit_exec(s, n, i, lit) {
        Some(j) => parse_opt_jstr_exec(s, n, j),
        None => None,
    }
}

/// Reads a literal key and number text.
fn lit_numtext_exec(s: &str, n: usize, i: usize, lit: &str) -> (r: Option<(String, usize)>)
    requires
        n == s@.len(),
        i <= n,
    ensures
        (r matches Some(p) ==> lit_numtext(s@, i as int, lit@) == Some((p.0@, p.1 as int)) && i
            < p.1 <= n),
        (r is None ==> lit_numtext(s@, i as int, lit@) is None),
{
    match eat_lit_exec(s, n, i, lit) {
        Some(j) => parse_numtext_exec(s, n, j),
        None => None,
    }
}

/// The per-status counts inside a ranking row, read at `i`.
pub open spec fn parse_ranking_stats_at(s: Seq<char>, i: int) -> Option<(RankingStats, int)> {
    match lit_i32(s, i, "{\"in_office\":"@) {
        Some((in_office, j1)) => match lit_i32(s, j1, ",\"remote\":"@) {
            Some((remote, j2)) => match lit_i32(s, j2, ",\"sick\":"@) {
                Some((sick, j3)) => match lit_i32(s, j3, ",\"leave\":"@) {
                    Some((leave, j4)) => match lit_i32(s, j4, ",\"days\":"@) {
                        Some((days, j5)) => match eat_lit(s, j5, "}"@) {
                            Some(j6) => Some(
                                (RankingStats { in_office, remote, sick, leave, days }, j6),
                            ),
                            None => None,
                        },
                        None => None,
                    },
                    None => None,
                },
                None => None,
            },
            None => None,
        },
        None => None,
    }
}

/// Reads the per-status counts of a ranking row.
pub fn parse_ranking_stats_exec(s: &str, n: usize, i: usize) -> (r: Option<(RankingStats, usize)>)
    requires
        n == s@.len(),
        i <= n,
    ensures
        (r matches Some(p) ==> parse_ranking_stats_at(s@, i as int) == Some((p.0, p.1 as int)) && i
            < p.1 <= n),
        (r is None ==> parse_ranking_stats_at(s@, i as int) is None),
{
    let (in_office, j1) = match lit_i32_exec(s, n, i, "{\"in_office\":") {
        Some(p) => p,
        None => {
            return None;
        },
    };
    let (remote, j2) = match lit_i32_exec(s, n, j1, ",\"remote\":") {
        Some(p) => p,
        None => {
            return None;
        },
    };
    let (sick, j3) = match lit_i32_exec(s, n, j2, ",\"sick\":") {
        Some(p) => p,
        None => {
            return None;
        },
    };
    let (leave, j4) = match lit_i32_exec(s, n, j3, ",\"leave\":") {
        Some(p) => p,
        None => {
            return None;
        },
    };
    let (days, j5) = match lit_i32_exec(s, n, j4, ",\"days\":") {
        Some(p) => p,
        None => {
            return None;
        },
    };
    let j6 = match eat_lit_exec(s, n, j5, "}") {
        Some(j) => j,
        None => {
            return None;
        },
    };
    Some((RankingStats { in_office, remote, sick, leave, days }, j6))
}

/// One ranking row, read at `i`.
pub open spec fn parse_ranking_at(s: Seq<char>, i: int) -> Option<(RankingView, int)> {
    match lit_jstr(s, i, "{\"name\":"@) {
        Some((name, j1)) => match lit_numtext(s, j1, ",\"score\":"@) {
            Some((score, j2)) => match lit_opt_i32(s, j2, ",\"streak\":"@) {
                Some((streak, j3)) => match lit_jstr(s, j3, ",\"average_arrival_time\":"@) {
                    Some((aat, j4)) => match eat_lit(s, j4, ",\"stats\":"@) {
                        Some(j5) => match parse_ranking_stats_at(s, j5) {
                            Some((stats, j6)) => match eat_lit(s, j6, "}"@) {
                                Some(j7) => Some(
                                    (
                                        RankingView {
                                            name,
                                            score,
                                            streak,
                                            average_arrival_time: aat,
                                            stats,
                                        },
                                        j7,
                                    ),
                                ),
                                None => None,
                            },
                            None => None,
                        },
                        None => None,
                    },
                    None => None,
                },
                None => None,
            },
            None => None,
        },
        None => None,
    }
}

/// Reads one ranking row.
pub fn parse_ranking_exec(s: &str, n: usize, i: usize) -> (r: Option<(Ranking, usize)>)
    requires
        n == s@.len(),
        i <= n,
    ensures
        (r matches Some(p) ==> parse_ranking_at(s@, i as int) == Some((p.0@, p.1 as int)) && i
            < p.1 <= n),
        (r is None ==> parse_ranking_at(s@, i as int) is None),
{
    let (name, j1) = match lit_jstr_exec(s, n, i, "{\"name\":") {
        Some(p) => p,
        None => {
            return None;
        },
    };
    let (score, j2) = match lit_numtext_exec(s, n, j1, ",\"score\":") {
        Some(p) => p,
        None => {
            return None;
        },
    };
    let (streak, j3) = match lit_opt_i32_exec(s, n, j2, ",\"streak\":") {
        Some(p) => p,
        None => {
            return None;
        },
    };
    let (aat, j4) = match lit_jstr_exec(s, n, j3, ",\"average_arrival_time\":") {
        Some(p) => p,
        None => {
            return None;
        },
    };
    let j5 = match eat_lit_exec(s, n, j4, ",\"stats\":") {
        Some(j) => j,
        None => {
            return None;
        },
    };
    let (stats, j6) = match parse_ranking_stats_exec(s, n, j5) {
        Some(p) => p,
        None => {
            return None;
        },
    };
    let j7 = match eat_lit_exec(s, n, j6, "}") {
        Some(j) => j,
        None => {
            return None;
        },
    };
    Some((Ranking { name, score, streak, average_arrival_time: aat, stats }, j7))
}

/// One streak row, read at `i`.
pub open spec fn parse_streak_at(s: Seq<char>, i: int) -> Option<(StreakView, int)> {
    match lit_jstr(s, i, "{\"username\":"@) {
        Some((username, j1)) => match lit_i32(s, j1, ",\"current_streak\":"@) {
            Some((current_streak, j2)) => match lit_i32(s, j2, ",\"max_streak\":"@) {
                Some((max_streak, j3)) => match lit_opt_jstr(s, j3, ",\"streak_start\":"@) {
                    Some((streak_start, j4)) => match eat_lit(s, j4, "}"@) {
                        Some(j5) => Some(
                            (StreakView { username, current_streak, max_streak, streak_start }, j5),
                        ),
                        None => None,
                    },
                    None => None,
                },
                None => None,
            },
            None => None,
        },
        None => None,
    }
}

/// Reads one streak row.
pub fn parse_streak_exec(s: &str, n: usize, i: usize) -> (r: Option<(Streak, usize)>)
    requires
        n == s@.len(),
        i <= n,
    ensures
        (r matches Some(p) ==> parse_streak_at(s@, i as int) == Some((p.0@, p.1 as int)) && i < p.1
            <= n),
        (r is None ==> parse_streak_at(s@, i as int) is None),
{
    let (username, j1) = match lit_jstr_exec(s, n, i, "{\"username\":") {
        Some(p) => p,
        None => {
            return None;
        },
    };
    let (current_streak, j2) = match lit_i32_exec(s, n, j1, ",\"current_streak\":") {
        Some(p) => p,
        None => {
            return None;
        },
    };
    let (max_streak, j3) = match lit_i32_exec(s, n, j2, ",\"max_streak\":") {
        Some(p) => p,
        None => {
            return None;
        },
    };
    let (streak_start, j4) = match lit_opt_jstr_exec(s, n, j3, ",\"streak_start\":") {
        Some(p) => p,
        None => {
            return None;
        },
    };
    let j5 = match eat_lit_exec(s, n, j4, "}") {
        Some(j) => j,
        None => {
            return None;
        },
    };
    Some((Streak { username, current_streak, max_streak, streak_start }, j5))
}

/// One query row, read at `i`.
pub open spec fn parse_query_result_at(s: Seq<char>, i: int) -> Option<(QueryResultView, int)> {
    match lit_jstr(s, i, "{\"date\":"@) {
        Some((date, j1)) => match lit_jstr(s, j1, ",\"name\":"@) {
            Some((name, j2)) => match lit_jstr(s, j2, ",\"status\":"@) {
                Some((status, j3)) => match lit_jstr(s, j3, ",\"time\":"@) {
                    Some((time, j4)) => match lit_numtext(s, j4, ",\"score\":"@) {
                        Some((score, j5)) => match lit_opt_i32(s, j5, ",\"streak\":"@) {
                            Some((streak, j6)) => match eat_lit(s, j6, "}"@) {
                                Some(j7) => Some(
                                    (
                                        QueryResultView { date, name, status, time, score, streak },
                                        j7,
                                    ),
                                ),
                                None => None,
                            },
                            None => None,
                        },
                        None => None,
                    },
                    None => None,
                },
                None => None,
            },
            None => None,
        },
        None => None,
    }
}

/// Reads one query row.
pub fn parse_query_result_exec(s: &str, n: usize, i: usize) -> (r: Option<(QueryResult, usize)>)
    requires
        n == s@.len(),
        i <= n,
    ensures
        (r matches Some(p) ==> parse_query_result_at(s@, i as int) == Some((p.0@, p.1 as int)) && i
            < p.1 <= n),
        (r is None ==> parse_query_result_at(s@, i as int) is None),
{
    let (date, j1) = match lit_jstr_exec(s, n, i, "{\"date\":") {
        Some(p) => p,
        None => {
            return None;
        },
    };
    let (name, j2) = match lit_jstr_exec(s, n, j1, ",\"name\":") {
        Some(p) => p,
        None => {
            return None;
        },
    };
    let (status, j3) = match lit_jstr_exec(s, n, j2, ",\"status\":") {
        Some(p) => p,
        None => {
            return None;
        },
    };
    let (time, j4) = match lit_jstr_exec(s, n, j3, ",\"time\":") {
        Some(p) => p,
        None => {
            return None;
        },
    };
    let (score, j5) = match lit_numtext_exec(s, n, j4, ",\"score\":") {
        Some(p) => p,
        None => {
            return None;
        },
    };
    let (streak, j6) = match lit_opt_i32_exec(s, n, j5, ",\"streak\":") {
        Some(p) => p,
        None => {
            return None;
        },
    };
    let j7 = match eat_lit_exec(s, n, j6, "}") {
        Some(j) => j,
        None => {
            return None;
        },
    };
    Some((QueryResult { date, name, status, time, score, streak }, j7))
}

/// The per-status counts of a statistics aggregate, read at `i`.
pub open spec fn parse_stats_detail_at(s: Seq<char>, i: int) -> Option<(StatsDetail, int)> {
    match lit_u32(s, i, "{\"days\":"@) {
        Some((days, j1)) => match lit_u32(s, j1, ",\"in_office\":"@) {
            Some((in_office, j2)) => match lit_u32(s, j2, ",\"remote\":"@) {
                Some((remote, j3)) => match lit_u32(s, j3, ",\"sick\":"@) {
                    Some((sick, j4)) => match lit_u32(s, j4, ",\"leave\":"@) {
                        Some((leave, j5)) => match eat_lit(s, j5, "}"@) {
                            Some(j6) => Some(
                                (StatsDetail { days, in_office, remote, sick, leave }, j6),
                            ),
                            None => None,
                        },
                        None => None,
                    },
                    None => None,
                },
                None => None,
            },
            None => None,
        },
        None => None,
    }
}

/// Reads the per-status counts of a statistics aggregate.
pub fn parse_stats_detail_exec(s: &str, n: usize, i: usize) -> (r: Option<(StatsDetail, usize)>)
    requires
        n == s@.len(),
        i <= n,
    ensures
        (r matches Some(p) ==> parse_stats_detail_at(s@, i as int) == Some((p.0, p.1 as int)) && i
            < p.1 <= n),
        (r is None ==> parse_stats_detail_at(s@, i as int) is None),
{
    let (days, j1) = match lit_u32_exec(s, n, i, "{\"days\":") {
        Some(p) => p,
        None => {
            return None;
        },
    };
    let (in_office, j2) = match lit_u32_exec(s, n, j1, ",\"in_office\":") {
        Some(p) => p,
        None => {
            return None;
        },
    };
    let (remote, j3) = match lit_u32_exec(s, n, j2, ",\"remote\":") {
        Some(p) => p,
        None => {
            return None;
        },
    };
    let (sick, j4) = match lit_u32_exec(s, n, j3, ",\"sick\":") {
        Some(p) => p,
        None => {
            return None;
        },
    };
    let (leave, j5) = match lit_u32_exec(s, n, j4, ",\"leave\":") {
        Some(p) => p,
        None => {
            return None;
        },
    };
    let j6 = match eat_lit_exec(s, n, j5, "}") {
        Some(j) => j,
        None => {
            return None;
        },
    };
    Some((StatsDetail { days, in_office, remote, sick, leave }, j6))
}

/// A statistics aggregate, read at `i`.
pub open spec fn parse_stats_response_at(s: Seq<char>, i: int) -> Option<(StatsResponseView, int)> {
    match lit_jstr(s, i, "{\"average_arrival_time\":"@) {
        Some((aat, j1)) => match lit_numtext(s, j1, ",\"score\":"@) {
            Some((score, j2)) => match eat_lit(s, j2, ",\"stats\":"@) {
                Some(j3) => match parse_stats_detail_at(s, j3) {
                    Some((stats, j4)) => match eat_lit(s, j4, "}"@) {
                        Some(j5) => Some(
                            (StatsResponseView { average_arrival_time: aat, score, stats }, j5),
                        ),
                        None => None,
                    },
                    None => None,
                },
                None => None,
            },
            None => None,
        },
        None => None,
    }
}

/// Reads a statistics aggregate.
pub fn parse_stats_response_exec(s: &str, n: usize, i: usize) -> (r: Option<
    (StatsResponse, usize),
>)
    requires
        n == s@.len(),
        i <= n,
    ensures
        (r matches Some(p) ==> parse_stats_response_at(s@, i as int) == Some((p.0@, p.1 as int))
            && i < p.1 <= n),
        (r is None ==> parse_stats_response_at(s@, i as int) is None),
{
    let (aat, j1) = match lit_jstr_exec(s, n, i, "{\"average_arrival_time\":") {
        Some(p) => p,
        None => {
            return None;
        },
    };
    let (score, j2) = match lit_numtext_exec(s, n, j1, ",\"score\":") {
        Some(p) => p,
        None => {
            return None;
        },
    };
    let j3 = match eat_lit_exec(s, n, j2, ",\"stats\":") {
        Some(j) => j,
        None => {
            return None;
        },
    };
    let (stats, j4) = match parse_stats_detail_exec(s, n, j3) {
        Some(p) => p,
        None => {
            return None;
        },
    };
    let j5 = match eat_lit_exec(s, n, j4, "}") {
        Some(j) => j,
        None => {
            return None;
        },
    };
    Some((StatsResponse { average_arrival_time: aat, score, stats }, j5))
}

/// The persisted session record, read at `i`.
pub open spec fn parse_config_at(s: Seq<char>, i: int) -> Option<(ConfigView, int)> {
    match lit_jstr(s, i, "{\"api_url\":"@) {
        Some((api_url, j1)) => match lit_jstr(s, j1, ",\"username\":"@) {
            Some((username, j2)) => match lit_opt_jstr(s, j2, ",\"api_token\":"@) {
                Some((api_token, j3)) => match eat_lit(s, j3, "}"@) {
                    Some(j4) => Some((ConfigView { api_url, username, api_token }, j4)),
                    None => None,
                },
                None => None,
            },
            None => None,
        },
        None => None,
    }
}

/// The token object of a successful login, read at `i`.
pub open spec fn parse_login_at(s: Seq<char>, i: int) -> Option<(Seq<char>, int)> {
    match lit_jstr(s, i, "{\"token\":"@) {
        Some((token, j1)) => match eat_lit(s, j1, "}"@) {
            Some(j2) => Some((token, j2)),
            None => None,
        },
        None => None,
    }
}

/// A whole body holding exactly one ranking row.
pub open spec fn ranking_json_parse(s: Seq<char>) -> Option<RankingView> {
    match parse_ranking_at(s, 0) {
        Some((r, e)) => if e == s.len() {
            Some(r)
        } else {
            None
        },
        None => None,
    }
}

/// A whole body holding exactly one streak row.
pub open spec fn streak_json_parse(s: Seq<char>) -> Option<StreakView> {
    match parse_streak_at(s, 0) {
        Some((r, e)) => if e == s.len() {
            Some(r)
        } else {
            None
        },
        None => None,
    }
}

/// A whole body holding exactly one query row.
pub open spec fn query_result_json_parse(s: Seq<char>) -> Option<QueryResultView> {
    match parse_query_result_at(s, 0) {
        Some((r, e)) => if e == s.len() {
            Some(r)
        } else {
            None
        },
        None => None,
    }
}

/// A whole body holding a statistics aggregate.
pub open spec fn stats_json_parse(s: Seq<char>) -> Option<StatsResponseView> {
    match parse_stats_response_at(s, 0) {
        Some((r, e)) => if e == s.len() {
            Some(r)
        } else {
            None
        },
        None => None,
    }
}

/// A whole persisted session record.
pub open spec fn config_json_parse(s: Seq<char>) -> Option<ConfigView> {
    match parse_config_at(s, 0) {
        Some((r, e)) => if e == s.len() {
            Some(r)
        } else {
            None
        },
        None => None,
    }
}

/// The token of a successful login body; the service never issues an empty
/// one, and an empty one is rejected as malformed.
pub open spec fn login_token_spec(s: Seq<char>) -> Option<Seq<char>> {
    match parse_login_at(s, 0) {
        Some((t, e)) => if e == s.len() && t.len() > 0 {
            Some(t)
        } else {
            None
        },
        None => None,
    }
}

/// Reads a whole body as one ranking row.
pub fn ranking_from_json(s: &str) -> (r: Option<Ranking>)
    ensures
        (r matches Some(v) ==> ranking_json_parse(s@) == Some(v@)),
        (r is None ==> ranking_json_parse(s@) is None),
{
    let n = s.unicode_len();
    match parse_ranking_exec(s, n, 0) {
        Some((v, e)) => if e == n {
            Some(v)
        } else {
            None
        },
        None => None,
    }
}

/// Reads a whole body as one streak row.
pub fn streak_from_json(s: &str) -> (r: Option<Streak>)
    ensures
        (r matches Some(v) ==> streak_json_parse(s@) == Some(v@)),
        (r is None ==> streak_json_parse(s@) is None),
{
    let n = s.unicode_len();
    match parse_streak_exec(s, n, 0) {
        Some((v, e)) => if e == n {
            Some(v)
        } else {
            None
        },
        None => None,
    }
}

/// Reads a whole body as one query row.
pub fn query_result_from_json(s: &str) -> (r: Option<QueryResult>)
    ensures
        (r matches Some(v) ==> query_result_json_parse(s@) == Some(v@)),
        (r is None ==> query_result_json_parse(s@) is None),
{
    let n = s.unicode_len();
    match parse_query_result_exec(s, n, 0) {
        Some((v, e)) => if e == n {
            Some(v)
        } else {
            None
        },
        None => None,
    }
}

/// Reads a whole body as a statistics aggregate.
pub fn stats_from_json(s: &str) -> (r: Option<StatsResponse>)
    ensures
        (r matches Some(v) ==> stats_json_parse(s@) == Some(v@)),
        (r is None ==> stats_json_parse(s@) is None),
{
    let n = s.unicode_len();
    match parse_stats_response_exec(s, n, 0) {
        Some((v, e)) => if e == n {
            Some(v)
        } else {
            None
        },
        None => None,
    }
}

/// Reads a whole persisted session record.
pub fn config_from_json(s: &str) -> (r: Option<Config>)
    ensures
        (r matches Some(v) ==> config_json_parse(s@) == Some(v@)),
        (r is None ==> config_json_parse(s@) is None),
{
    let n = s.unicode_len();
    let (api_url, j1) = match lit_jstr_exec(s, n, 0, "{\"api_url\":") {
        Some(p) => p,
        None => {
            return None;
        },
    };
    let (username, j2) = match lit_jstr_exec(s, n, j1, ",\"username\":") {
        Some(p) => p,
        None => {
            return None;
        },
    };
    let (api_token, j3) = match lit_opt_jstr_exec(s, n, j2, ",\"api_token\":") {
        Some(p) => p,
        None => {
            return None;
        },
    };
    let j4 = match eat_lit_exec(s, n, j3, "}") {
        Some(j) => j,
        None => {
            return None;
        },
    };
    if j4 == n {
        Some(Config { api_url, username, api_token })
    } else {
        None
    }
}

/// A comma-separated run of ranking rows closed by `]`, read at `i`.  The
/// fuel only bounds recursion; each row consumes at least one character,
/// so the text's length is always fuel enough.
pub open spec fn parse_ranking_list_at(s: Seq<char>, i: int, fuel: nat) -> Option<
    (Seq<RankingView>, int),
>
    decreases fuel,
{
    if fuel == 0 {
        None
    } else {
        match parse_ranking_at(s, i) {
            Some((r0, j)) => if j < s.len() && s[j] == ',' {
                match parse_ranking_list_at(s, j + 1, (fuel - 1) as nat) {
                    Some((rest, e)) => Some((seq![r0] + rest, e)),
                    None => None,
                }
            } else if j < s.len() && s[j] == ']' {
                Some((seq![r0], j + 1))
            } else {
                None
            },
            None => None,
        }
    }
}

/// A whole body holding a JSON array of ranking rows.
pub open spec fn rankings_json_parse(s: Seq<char>) -> Option<Seq<RankingView>> {
    if s.len() == 2 && s[0] == '[' && s[1] == ']' {
        Some(Seq::empty())
    } else if s.len() >= 1 && s[0] == '[' {
        match parse_ranking_list_at(s, 1, s.len() as nat) {
            Some((l, e)) => if e == s.len() {
                Some(l)
            } else {
                None
            },
            None => None,
        }
    } else {
        None
    }
}

/// Reads a run of ranking rows closed by `]`.
fn parse_ranking_list_exec(s: &str, n: usize, i: usize, fuel: usize) -> (r: Option<
    (Vec<Ranking>, usize),
>)
    requires
        n == s@.len(),
        i <= n,
    ensures
        (r matches Some(p) ==> (parse_ranking_list_at(s@, i as int, fuel as nat) matches Some(q)
            && q.1 == p.1 as int && q.0.len() == p.0@.len() && (forall|k: int|
            0 <= k < q.0.len() ==> q.0[k] == p.0@[k]@) && i < p.1 <= n)),
        (r is None ==> parse_ranking_list_at(s@, i as int, fuel as nat) is None),
    decreases fuel,
{
    if fuel == 0 {
        return None;
    }
    let (r0, j) = match parse_ranking_exec(s, n, i) {
        Some(p) => p,
        None => {
            return None;
        },
    };
    if j < n {
        let c = s.get_char(j);
        if c == ',' {
            match parse_ranking_list_exec(s, n, j + 1, fuel - 1) {
                Some((rest, e)) => {
                    let mut v = rest;
                    v.insert(0, r0);
                    Some((v, e))
                },
                None => None,
            }
        } else if c == ']' {
            let mut v: Vec<Ranking> = Vec::new();
            v.push(r0);
            Some((v, j + 1))
        } else {
            None
        }
    } else {
        None
    }
}

/// Reads a whole body as an array of ranking rows.
pub fn rankings_from_json(s: &str) -> (r: Option<Vec<Ranking>>)
    ensures
        (r matches Some(v) ==> (rankings_json_parse(s@) matches Some(l) && l.len() == v@.len() && (
        forall|k: int| 0 <= k < l.len() ==> l[k] == v@[k]@))),
        (r is None ==> rankings_json_parse(s@) is None),
{
    let n = s.unicode_len();
    if n == 2 && s.get_char(0) == '[' && s.get_char(1) == ']' {
        return Some(Vec::new());
    }
    if n >= 1 && s.get_char(0) == '[' {
        match parse_ranking_list_exec(s, n, 1, n) {
            Some((v, e)) => if e == n {
                Some(v)
            } else {
                None
            },
            None => None,
        }
    } else {
        None
    }
}

/// A comma-separated run of streak rows closed by `]`, read at `i`.
pub open spec fn parse_streak_list_at(s: Seq<char>, i: int, fuel: nat) -> Option<
    (Seq<StreakView>, int),
>
    decreases fuel,
{
    if fuel == 0 {
        None
    } else {
        match parse_streak_at(s, i) {
            Some((r0, j)) => if j < s.len() && s[j] == ',' {
                match parse_streak_list_at(s, j + 1, (fuel - 1) as nat) {
                    Some((rest, e)) => Some((seq![r0] + rest, e)),
                    None => None,
                }
            } else if j < s.len() && s[j] == ']' {
                Some((seq![r0], j + 1))
            } else {
                None
            },
            None => None,
        }
    }
}

/// A whole body holding a JSON array of streak rows.
pub open spec fn streaks_json_parse(s: Seq<char>) -> Option<Seq<StreakView>> {
    if s.len() == 2 && s[0] == '[' && s[1] == ']' {
        Some(Seq::empty())
    } else if s.len() >= 1 && s[0] == '[' {
        match parse_streak_list_at(s, 1, s.len() as nat) {
            Some((l, e)) => if e == s.len() {
                Some(l)
            } else {
                None
            },
            None => None,
        }
    } else {
        None
    }
}

/// Reads a run of streak rows closed by `]`.
fn parse_streak_list_exec(s: &str, n: usize, i: usize, fuel: usize) -> (r: Option<
    (Vec<Streak>, usize),
>)
    requires
        n == s@.len(),
        i <= n,
    ensures
        (r matches Some(p) ==> (parse_streak_list_at(s@, i as int, fuel as nat) matches Some(q)
            && q.1 == p.1 as int && q.0.len() == p.0@.len() && (forall|k: int|
            0 <= k < q.0.len() ==> q.0[k] == p.0@[k]@) && i < p.1 <= n)),
        (r is None ==> parse_streak_list_at(s@, i as int, fuel as nat) is None),
    decreases fuel,
{
    if fuel == 0 {
        return None;
    }
    let (r0, j) = match parse_streak_exec(s, n, i) {
        Some(p) => p,
        None => {
            return None;
        },
    };
    if j < n {
        let c = s.get_char(j);
        if c == ',' {
            match parse_streak_list_exec(s, n, j + 1, fuel - 1) {
                Some((rest, e)) => {
                    let mut v = rest;
                    v.insert(0, r0);
                    Some((v, e))
                },
                None => None,
            }
        } else if c == ']' {
            let mut v: Vec<Streak> = Vec::new();
            v.push(r0);
            Some((v, j + 1))
        } else {
            None
        }
    } else {
        None
    }
}

/// Reads a whole body as an array of streak rows.
pub fn streaks_from_json(s: &str) -> (r: Option<Vec<Streak>>)
    ensures
        (r matches Some(v) ==> (streaks_json_parse(s@) matches Some(l) && l.len() == v@.len() && (
        forall|k: int| 0 <= k < l.len() ==> l[k] == v@[k]@))),
        (r is None ==> streaks_json_parse(s@) is None),
{
    let n = s.unicode_len();
    if n == 2 && s.get_char(0) == '[' && s.get_char(1) == ']' {
        return Some(Vec::new());
    }
    if n >= 1 && s.get_char(0) == '[' {
        match parse_streak_list_exec(s, n, 1, n) {
            Some((v, e)) => if e == n {
                Some(v)
            } else {
                None
            },
            None => None,
        }
    } else {
        None
    }
}

/// A comma-separated run of query rows closed by `]`, read at `i`.
pub open spec fn parse_query_result_list_at(s: Seq<char>, i: int, fuel: nat) -> Option<
    (Seq<QueryResultView>, int),
>
    decreases fuel,
{
    if fuel == 0 {
        None
    } else {
        match parse_query_result_at(s, i) {
            Some((r0, j)) => if j < s.len() && s[j] == ',' {
                match parse_query_result_list_at(s, j + 1, (fuel - 1) as nat) {
                    Some((rest, e)) => Some((seq![r0] + rest, e)),
                    None => None,
                }
            } else if j < s.len() && s[j] == ']' {
                Some((seq![r0], j + 1))
            } else {
                None
            },
            None => None,
        }
    }
}

/// A whole body holding a JSON array of query rows.
pub open spec fn query_results_json_parse(s: Seq<char>) -> Option<Seq<QueryResultView>> {
    if s.len() == 2 && s[0] == '[' && s[1] == ']' {
        Some(Seq::empty())
    } else if s.len() >= 1 && s[0] == '[' {
        match parse_query_result_list_at(s, 1, s.len() as nat) {
            Some((l, e)) => if e == s.len() {
                Some(l)
            } else {
                None
            },
            None => None,
        }
    } else {
        None
    }
}

/// Reads a run of query rows closed by `]`.
fn parse_query_result_list_exec(s: &str, n: usize, i: usize, fuel: usize) -> (r: Option<
    (Vec<QueryResult>, usize),
>)
    requires
        n == s@.len(),
        i <= n,
    ensures
        (r matches Some(p) ==> (parse_query_result_list_at(s@, i as int, fuel as nat) matches Some(
            q,
        ) && q.1 == p.1 as int && q.0.len() == p.0@.len() && (forall|k: int|
            0 <= k < q.0.len() ==> q.0[k] == p.0@[k]@) && i < p.1 <= n)),
        (r is None ==> parse_query_result_list_at(s@, i as int, fuel as nat) is None),
    decreases fuel,
{
    if fuel == 0 {
        return None;
    }
    let (r0, j) = match parse_query_result_exec(s, n, i) {
        Some(p) => p,
        None => {
            return None;
        },
    };
    if j < n {
        let c = s.get_char(j);
        if c == ',' {
            match parse_query_result_list_exec(s, n, j + 1, fuel - 1) {
                Some((rest, e)) => {
                    let mut v = rest;
                    v.insert(0, r0);
                    Some((v, e))
                },
                None => None,
            }
        } else if c == ']' {
            let mut v: Vec<QueryResult> = Vec::new();
            v.push(r0);
            Some((v, j + 1))
        } else {
            None
        }
    } else {
        None
    }
}

/// Reads a whole body as an array of query rows.
pub fn query_results_from_json(s: &str) -> (r: Option<Vec<QueryResult>>)
    ensures
        (r matches Some(v) ==> (query_results_json_parse(s@) matches Some(l) && l.len() == v@.len()
            && (forall|k: int| 0 <= k < l.len() ==> l[k] == v@[k]@))),
        (r is None ==> query_results_json_parse(s@) is None),
{
    let n = s.unicode_len();
    if n == 2 && s.get_char(0) == '[' && s.get_char(1) == ']' {
        return Some(Vec::new());
    }
    if n >= 1 && s.get_char(0) == '[' {
        match parse_query_result_list_exec(s, n, 1, n) {
            Some((v, e)) => if e == n {
                Some(v)
            } else {
                None
            },
            None => None,
        }
    } else {
        None
    }
}

/// Reads the token out of a successful login body.
pub fn login_token_from_json(s: &str) -> (r: Option<String>)
    ensures
        (r matches Some(t) ==> login_token_spec(s@) == Some(t@) && t@.len() > 0),
        (r is None ==> login_token_spec(s@) is None),
{
    let n = s.unicode_len();
    let (token, j1) = match lit_jstr_exec(s, n, 0, "{\"token\":") {
        Some(p) => p,
        None => {
            return None;
        },
    };
    let j2 = match eat_lit_exec(s, n, j1, "}") {
        Some(j) => j,
        None => {
            return None;
        },
    };
    if j2 == n && !token.as_str().is_empty() {
        Some(token)
    } else {
        None
    }
}

} // verus!
