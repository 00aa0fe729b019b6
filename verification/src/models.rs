//! The typed records exchanged with the service, and their validity.
//!
//! Scores travel as decimal text.  The client never computes with a score —
//! it only carries one from the wire to the screen — so the record keeps the
//! exact digits the server sent (or that a caller constructed) instead of a
//! lossy machine float.

use vstd::prelude::*;

verus! {

/// True of text that can stand inside a JSON string of the wire format
/// without escaping: printable ASCII other than the quote and the backslash.
/// Every name, date, time and status the service exchanges is of this shape.
pub open spec fn json_safe(s: Seq<char>) -> bool {
    forall|i: int| 0 <= i < s.len() ==> char_json_safe(#[trigger] s[i])
}

/// One character that needs no JSON escaping.
pub open spec fn char_json_safe(c: char) -> bool {
    ' ' <= c && c <= '~' && c != '"' && c != '\\'
}

/// True of a decimal digit.
pub open spec fn is_digit(c: char) -> bool {
    '0' <= c && c <= '9'
}

/// True of text of the shape `-?[0-9]+(\.[0-9]+)?`: the decimal notation the
/// service uses for scores.
pub open spec fn is_number_text(s: Seq<char>) -> bool {
    if s.len() > 0 && s[0] == '-' {
        is_unsigned_number_text(s.subrange(1, s.len() as int))
    } else {
        is_unsigned_number_text(s)
    }
}

/// The first position at or past `i` holding a dot, or the length when
/// there is none.
pub open spec fn first_dot_from(s: Seq<char>, i: int) -> int
    decreases s.len() - i,
{
    if i < 0 || i >= s.len() {
        s.len() as int
    } else if s[i] == '.' {
        i
    } else {
        first_dot_from(s, i + 1)
    }
}

/// `[0-9]+(\.[0-9]+)?`: digits, with at most one dot strictly inside.
pub open spec fn is_unsigned_number_text(s: Seq<char>) -> bool {
    let d = first_dot_from(s, 0);
    if d == s.len() {
        s.len() > 0 && all_digits(s)
    } else {
        0 < d && d + 1 < s.len() && all_digits(s.subrange(0, d)) && all_digits(
            s.subrange(d + 1, s.len() as int),
        )
    }
}

/// True when every character of `s` is a decimal digit.
pub open spec fn all_digits(s: Seq<char>) -> bool {
    forall|i: int| 0 <= i < s.len() ==> is_digit(#[trigger] s[i])
}

/// One attendance record, sent once per `log` invocation.
#[derive(Debug, Clone, PartialEq, Eq)]
pub struct AttendanceEntry {
    pub date: String,
    pub time: String,
    pub name: String,
    pub status: String,
}

/// The mathematical value of an attendance record.
pub ghost struct AttendanceEntryView {
    pub date: Seq<char>,
    pub time: Seq<char>,
    pub name: Seq<char>,
    pub status: Seq<char>,
}

impl AttendanceEntryView {
    /// All fields can travel inside the JSON body.
    pub open spec fn wf(self) -> bool {
        json_safe(self.date) && json_safe(self.time) && json_safe(self.name) && json_safe(
            self.status,
        )
    }
}

impl View for AttendanceEntry {
    type V = AttendanceEntryView;

    open spec fn view(&self) -> AttendanceEntryView {
        AttendanceEntryView {
            date: self.date@,
            time: self.time@,
            name: self.name@,
            status: self.status@,
        }
    }
}

/// Per-status day counts inside a ranking row.
#[derive(Debug, Clone, PartialEq, Eq)]
pub struct RankingStats {
    pub in_office: i32,
    pub remote: i32,
    pub sick: i32,
    pub leave: i32,
    pub days: i32,
}

/// One server-computed ranking row; rows arrive already rank-ordered and the
/// client must not re-sort them.
#[derive(Debug, Clone, PartialEq, Eq)]
pub struct Ranking {
    pub name: String,
    /// Decimal text of the server's score, kept digit for digit.
    pub score: String,
    pub streak: Option<i32>,
    pub average_arrival_time: String,
    pub stats: RankingStats,
}

/// The mathematical value of a ranking row.
pub ghost struct RankingView {
    pub name: Seq<char>,
    pub score: Seq<char>,
    pub streak: Option<i32>,
    pub average_arrival_time: Seq<char>,
    pub stats: RankingStats,
}

impl RankingView {
    pub open spec fn wf(self) -> bool {
        json_safe(self.name) && is_number_text(self.score) && json_safe(
            self.average_arrival_time,
        )
    }
}

impl View for Ranking {
    type V = RankingView;

    open spec fn view(&self) -> RankingView {
        RankingView {
            name: self.name@,
            score: self.score@,
            streak: self.streak,
            average_arrival_time: self.average_arrival_time@,
            stats: self.stats,
        }
    }
}

/// One user's attendance streak summary.
#[derive(Debug, Clone, PartialEq, Eq)]
pub struct Streak {
    pub username: String,
    pub current_streak: i32,
    pub max_streak: i32,
    /// First day of the current streak, as `YYYY-MM-DD`, when one is running.
    pub streak_start: Option<String>,
}

/// The mathematical value of a streak row.
pub ghost struct StreakView {
    pub username: Seq<char>,
    pub current_streak: i32,
    pub max_streak: i32,
    pub streak_start: Option<Seq<char>>,
}

impl StreakView {
    pub open spec fn wf(self) -> bool {
        json_safe(self.username) && (self.streak_start matches Some(d) ==> json_safe(d))
    }
}

impl View for Streak {
    type V = StreakView;

    open spec fn view(&self) -> StreakView {
        StreakView {
            username: self.username@,
            current_streak: self.current_streak,
            max_streak: self.max_streak,
            streak_start: match self.streak_start {
                Some(d) => Some(d@),
                None => None,
            },
        }
    }
}

/// One row of a filtered attendance query.
#[derive(Debug, Clone, PartialEq, Eq)]
pub struct QueryResult {
    pub date: String,
    pub name: String,
    pub status: String,
    pub time: String,
    /// Decimal text of the server's score, kept digit for digit.
    pub score: String,
    pub streak: Option<i32>,
}

/// The mathematical value of a query row.
pub ghost struct QueryResultView {
    pub date: Seq<char>,
    pub name: Seq<char>,
    pub status: Seq<char>,
    pub time: Seq<char>,
    pub score: Seq<char>,
    pub streak: Option<i32>,
}

impl QueryResultView {
    pub open spec fn wf(self) -> bool {
        json_safe(self.date) && json_safe(self.name) && json_safe(self.status) && json_safe(
            self.time,
        ) && is_number_text(self.score)
    }
}

impl View for QueryResult {
    type V = QueryResultView;

    open spec fn view(&self) -> QueryResultView {
        QueryResultView {
            date: self.date@,
            name: self.name@,
            status: self.status@,
            time: self.time@,
            score: self.score@,
            streak: self.streak,
        }
    }
}

/// Per-status day counts inside a user's aggregate statistics.
#[derive(Debug, Clone, PartialEq, Eq)]
pub struct StatsDetail {
    pub days: u32,
    pub in_office: u32,
    pub remote: u32,
    pub sick: u32,
    pub leave: u32,
}

/// The aggregate statistics of one user.
#[derive(Debug, Clone, PartialEq, Eq)]
pub struct StatsResponse {
    pub average_arrival_time: String,
    /// Decimal text of the server's score, kept digit for digit.
    pub score: String,
    pub stats: StatsDetail,
}

/// The mathematical value of a statistics aggregate.
pub ghost struct StatsResponseView {
    pub average_arrival_time: Seq<char>,
    pub score: Seq<char>,
    pub stats: StatsDetail,
}

impl StatsResponseView {
    pub open spec fn wf(self) -> bool {
        json_safe(self.average_arrival_time) && is_number_text(self.score)
    }
}

impl View for StatsResponse {
    type V = StatsResponseView;

    open spec fn view(&self) -> StatsResponseView {
        StatsResponseView {
            average_arrival_time: self.average_arrival_time@,
            score: self.score@,
            stats: self.stats,
        }
    }
}

/// The reporting period of rankings and queries.
#[derive(Debug, Clone, Copy, PartialEq, Eq, Structural)]
pub enum Period {
    Day,
    Week,
    Month,
}

impl Period {
    /// The path segment the service expects for this period.
    pub fn as_str(&self) -> (r: &'static str)
        ensures
            r@ == self.seg(),
    {
        proof {
            reveal_strlit("day");
            reveal_strlit("week");
            reveal_strlit("month");
        }
        match self {
            Period::Day => "day",
            Period::Week => "week",
            Period::Month => "month",
        }
    }

    /// The path segment, at the specification level.
    pub open spec fn seg(&self) -> Seq<char> {
        match self {
            Period::Day => "day"@,
            Period::Week => "week"@,
            Period::Month => "month"@,
        }
    }
}

} // verus!
