//! The decision core of each user-facing command.
//!
//! A command gathers its inputs from flags or, when a flag is absent, from
//! an interactive prompt that the front-end runs; the resolution rules and
//! the one client operation each command performs live here.  The front-end
//! only prompts, sends the built request, and renders.

use vstd::prelude::*;
use crate::api::{
    Api, HttpRequest, auth_headers_spec, rankings_url_spec, streaks_url_spec, stats_url_spec,
    query_url_spec, login_url_spec,
};
use crate::codec::login_body_spec;
use crate::config::Config;
use crate::errors::ApiError;
use crate::models::{json_safe, AttendanceEntry, Period};
use crate::validate::{date_ok, url_safe};

verus! {

/// The view of an owned optional string.
pub open spec fn osv(x: Option<String>) -> Option<Seq<char>> {
    match x {
        Some(s) => Some(s@),
        None => None,
    }
}

/// Whether two string slices hold the same characters.
pub fn str_eq(a: &str, b: &str) -> (r: bool)
    ensures
        r == (a@ == b@),
{
    let n = a.unicode_len();
    let m = b.unicode_len();
    if n != m {
        return false;
    }
    let mut i: usize = 0;
    while i < n
        invariant
            n == a@.len(),
            n == b@.len(),
            0 <= i <= n,
            forall|k: int| 0 <= k < i ==> a@[k] == b@[k],
        decreases n - i,
    {
        if a.get_char(i) != b.get_char(i) {
            return false;
        }
        i = i + 1;
    }
    proof {
        assert(a@ =~= b@);
    }
    true
}

/// The login command: credentials from flags, or prompted.
pub struct LoginCommand {
    pub username: Option<String>,
    pub password: Option<String>,
}

impl LoginCommand {
    /// The name to log in under: the flag wins over the prompted entry.
    pub fn resolve_username(&self, entered: String) -> (r: String)
        ensures
            r == (if self.username is Some { self.username->0 } else { entered }),
    {
        match &self.username {
            Some(u) => u.clone(),
            None => entered,
        }
    }

    /// The password: the flag wins over the prompted entry.
    pub fn resolve_password(&self, entered: String) -> (r: String)
        ensures
            r == (if self.password is Some { self.password->0 } else { entered }),
    {
        match &self.password {
            Some(p) => p.clone(),
            None => entered,
        }
    }

    /// The one client operation of this command.
    pub fn request(&self, api: &Api, username: &str, password: &str) -> (r: Result<
        HttpRequest,
        ApiError,
    >)
        ensures
            r is Ok <==> json_safe(username@) && json_safe(password@),
            (r matches Ok(req) ==> req.url@ == login_url_spec(api.base_url@) && (
            req.body matches Some(b) && b@ == login_body_spec(username@, password@))),
            (r matches Err(e) ==> e is ValidationError),
    {
        api.login_request(username, password)
    }
}

/// The attendance-logging command: status and time from flags, or prompted.
pub struct LogCommand {
    pub status: Option<String>,
    pub time: Option<String>,
}

impl LogCommand {
    /// The status to log: the flag wins over the interactive selection.
    pub fn resolve_status(&self, selected: String) -> (r: String)
        ensures
            r == (if self.status is Some { self.status->0 } else { selected }),
    {
        match &self.status {
            Some(s) => s.clone(),
            None => selected,
        }
    }

    /// The time to log: the flag wins; absence-type statuses take the
    /// sentinel `00:00`; otherwise the prompted entry stands.
    pub fn resolve_time(&self, status: &str, entered: String) -> (r: String)
        ensures
            self.time is Some ==> r == self.time->0,
            self.time is None && (status@ == "sick"@ || status@ == "leave"@) ==> r@ == "00:00"@,
            self.time is None && !(status@ == "sick"@ || status@ == "leave"@) ==> r == entered,
    {
        match &self.time {
            Some(t) => t.clone(),
            None => {
                if str_eq(status, "sick") || str_eq(status, "leave") {
                    String::from_str("00:00")
                } else {
                    entered
                }
            },
        }
    }

    /// The entry this command sends: today's date, the session's user name,
    /// and the resolved status and time.
    pub fn entry(&self, today: String, username: String, selected: String, entered: String) -> (r:
        AttendanceEntry)
        ensures
            r.date == today,
            r.name == username,
            r.status == (if self.status is Some { self.status->0 } else { selected }),
            self.time is Some ==> r.time == self.time->0,
            self.time is None && (r.status@ == "sick"@ || r.status@ == "leave"@) ==> r.time@
                == "00:00"@,
            self.time is None && !(r.status@ == "sick"@ || r.status@ == "leave"@) ==> r.time
                == entered,
    {
        let status = self.resolve_status(selected);
        let time = self.resolve_time(status.as_str(), entered);
        AttendanceEntry { date: today, time, name: username, status }
    }
}

/// The rankings command.
pub struct RankingsCommand {
    pub period: Period,
    pub date: Option<String>,
}

impl RankingsCommand {
    /// The one client operation of this command; it needs authentication
    /// and a well-formed date when one is given.
    pub fn request(&self, api: &Api) -> (r: Result<HttpRequest, ApiError>)
        ensures
            r is Ok <==> api.auth_ok() && (self.date matches Some(d) ==> date_ok(d@)),
            (r matches Ok(req) ==> req.url@ == rankings_url_spec(
                api.base_url@,
                self.period,
                osv(self.date),
            ) && auth_headers_spec(*api, req.headers@)),
            (r matches Err(e) ==> (e is NotAuthenticated <==> !api.auth_ok()) && (!(
            e is NotAuthenticated) ==> e is ValidationError)),
    {
        let date = match &self.date {
            Some(d) => Some(d.as_str()),
            None => None,
        };
        api.rankings_request(self.period, date)
    }
}

/// The streaks command.
pub struct StreaksCommand {}

impl StreaksCommand {
    /// The one client operation of this command; it needs authentication.
    pub fn request(&self, api: &Api) -> (r: Result<HttpRequest, ApiError>)
        ensures
            r is Ok <==> api.auth_ok(),
            (r matches Ok(req) ==> req.url@ == streaks_url_spec(api.base_url@)
                && auth_headers_spec(*api, req.headers@)),
            (r matches Err(e) ==> e is NotAuthenticated),
    {
        api.streaks_request()
    }
}

/// The statistics command: a user from the flag, or the session's.
pub struct StatsCommand {
    pub user: Option<String>,
}

impl StatsCommand {
    /// Whose statistics to fetch: the flag wins over the session name.
    pub fn resolve_user(&self, config: &Config) -> (r: String)
        ensures
            r == (if self.user is Some { self.user->0 } else { config.username }),
    {
        match &self.user {
            Some(u) => u.clone(),
            None => config.username.clone(),
        }
    }

    /// The one client operation of this command; it needs authentication,
    /// and the resolved name must stand in a URL path.
    pub fn request(&self, api: &Api, config: &Config) -> (r: Result<HttpRequest, ApiError>)
        ensures
            r is Ok <==> api.auth_ok() && url_safe(
                (if self.user is Some { self.user->0 } else { config.username })@,
            ),
            (r matches Ok(req) ==> req.url@ == stats_url_spec(
                api.base_url@,
                (if self.user is Some { self.user->0 } else { config.username })@,
            ) && auth_headers_spec(*api, req.headers@)),
            (r matches Err(e) ==> (e is NotAuthenticated <==> !api.auth_ok()) && (!(
            e is NotAuthenticated) ==> e is ValidationError)),
    {
        let username = self.resolve_user(config);
        api.stats_request(username.as_str())
    }
}

/// The configuration command: explicit updates from flags, or prompted.
pub struct ConfigCommand {
    pub api_url: Option<String>,
    pub username: Option<String>,
}

impl ConfigCommand {
    /// The updated session: when either flag is given only the flags apply;
    /// otherwise both prompted values (whose prompts default to the current
    /// settings) replace the stored ones.  The token is never touched.
    pub fn updated(&self, config: Config, prompted_url: String, prompted_user: String) -> (r:
        Config)
        ensures
            self.api_url is Some || self.username is Some ==> r.api_url == (
            if self.api_url is Some { self.api_url->0 } else { config.api_url }) && r.username == (
            if self.username is Some { self.username->0 } else { config.username }),
            self.api_url is None && self.username is None ==> r.api_url == prompted_url
                && r.username == prompted_user,
            r.api_token == config.api_token,
    {
        if self.api_url.is_some() || self.username.is_some() {
            let api_url = match &self.api_url {
                Some(u) => Some(u.clone()),
                None => None,
            };
            let username = match &self.username {
                Some(u) => Some(u.clone()),
                None => None,
            };
            config.with_updates(api_url, username)
        } else {
            config.with_updates(Some(prompted_url), Some(prompted_user))
        }
    }
}

/// The filtered-query command.
pub struct QueryCommand {
    pub period: String,
    pub from: Option<String>,
    pub to: Option<String>,
    pub user: Option<String>,
    pub mode: String,
    pub status: Option<String>,
    pub limit: Option<usize>,
}

impl QueryCommand {
    /// The one client operation of this command; it needs authentication,
    /// well-formed dates, and values that stand in a URL.
    pub fn request(&self, api: &Api) -> (r: Result<HttpRequest, ApiError>)
        ensures
            r is Ok <==> api.auth_ok() && url_safe(self.period@) && self.period@.len() > 0 && (
            self.from matches Some(d) ==> date_ok(d@)) && (self.to matches Some(d) ==> date_ok(d@))
                && (self.user matches Some(u) ==> url_safe(u@)) && url_safe(self.mode@) && (
            self.status matches Some(s) ==> url_safe(s@)),
            (r matches Ok(req) ==> req.url@ == query_url_spec(
                api.base_url@,
                self.period@,
                osv(self.from),
                osv(self.to),
                osv(self.user),
                self.mode@,
                osv(self.status),
                self.limit,
            ) && auth_headers_spec(*api, req.headers@)),
            (r matches Err(e) ==> (e is NotAuthenticated <==> !api.auth_ok()) && (!(
            e is NotAuthenticated) ==> e is ValidationError)),
    {
        let from = match &self.from {
            Some(d) => Some(d.as_str()),
            None => None,
        };
        let to = match &self.to {
            Some(d) => Some(d.as_str()),
            None => None,
        };
        let user = match &self.user {
            Some(u) => Some(u.as_str()),
            None => None,
        };
        let status = match &self.status {
            Some(s) => Some(s.as_str()),
            None => None,
        };
        api.query_request(
            self.period.as_str(),
            from,
            to,
            user,
            self.mode.as_str(),
            status,
            self.limit,
        )
    }
}

} // verus!
