//! The authenticated client: one request value per remote operation.
//!
//! Each operation builds an `HttpRequest` that an outside transport can
//! send as it stands.  Authentication follows the scheme the client was
//! constructed with: a bearer token attached per request, or a cookie jar
//! kept by the transport.  Operations that need authentication fail fast
//! with `NotAuthenticated` before any request value exists, and malformed
//! local inputs fail with `ValidationError` the same way.

use vstd::prelude::*;
use crate::errors::ApiError;
use crate::models::{json_safe, AttendanceEntry, Period, Ranking, Streak, QueryResult, StatsResponse};
use crate::numtext::dec_of;
use crate::validate::{date_ok, url_safe, is_date_ok, is_url_safe, is_json_safe};
use crate::codec::{login_body, login_body_spec, entry_json, entry_json_spec};
use crate::decode::{
    login_token_spec, login_token_from_json, rankings_json_parse, rankings_from_json,
    streaks_json_parse, streaks_from_json, stats_json_parse, stats_from_json,
    query_results_json_parse, query_results_from_json,
};

verus! {

/// The HTTP method of a built request.
#[derive(Debug, Clone, Copy, PartialEq, Eq, Structural)]
pub enum Method {
    Get,
    Post,
}

/// How the client proves identity.
///
/// * `Bearer` — an explicit token travels in an `Authorization` header, so
///   it must be present before any authenticated operation.
/// * `Cookie` — the transport replays a server-issued cookie; requests
///   carry no credential of their own.
#[derive(Debug, Clone, Copy, PartialEq, Eq, Structural)]
pub enum AuthScheme {
    Bearer,
    Cookie,
}

/// One fully built remote operation: everything the transport needs.
#[derive(Debug, Clone, PartialEq, Eq)]
pub struct HttpRequest {
    pub method: Method,
    pub url: String,
    pub headers: Vec<(String, String)>,
    pub body: Option<String>,
}

/// The client: where to reach the service and how to prove identity.
#[derive(Debug, Clone, PartialEq, Eq)]
pub struct Api {
    pub base_url: String,
    pub token: Option<String>,
    pub scheme: AuthScheme,
}

/// The view of an optional borrowed string.
pub open spec fn o2v(x: Option<&str>) -> Option<Seq<char>> {
    match x {
        Some(s) => Some(s@),
        None => None,
    }
}

/// One `key=value` pair of a query string.
pub open spec fn kv(key: Seq<char>, val: Seq<char>) -> Seq<char> {
    key + "="@ + val
}

/// The zero or one parts an optional parameter contributes.
pub open spec fn opt_part(key: Seq<char>, v: Option<Seq<char>>) -> Seq<Seq<char>> {
    match v {
        Some(x) => seq![kv(key, x)],
        None => Seq::empty(),
    }
}

/// The `key=value` parts of a query, in the fixed order
/// from, to, user, mode, status, limit; exactly the supplied parameters
/// appear, and `mode` always does.
pub open spec fn query_parts(
    from: Option<Seq<char>>,
    to: Option<Seq<char>>,
    user: Option<Seq<char>>,
    mode: Seq<char>,
    status: Option<Seq<char>>,
    limit: Option<usize>,
) -> Seq<Seq<char>> {
    opt_part("from"@, from) + opt_part("to"@, to) + opt_part("user"@, user) + seq![
        kv("mode"@, mode),
    ] + opt_part("status"@, status) + (match limit {
        Some(n) => seq![kv("limit"@, dec_of(n as nat))],
        None => Seq::empty(),
    })
}

/// Parts joined with `&`.
pub open spec fn amp_join(parts: Seq<Seq<char>>) -> Seq<char>
    decreases parts.len(),
{
    if parts.len() == 0 {
        Seq::empty()
    } else if parts.len() == 1 {
        parts[0]
    } else {
        amp_join(parts.drop_last()) + "&"@ + parts.last()
    }
}

/// The whole query string, `?` included.
pub open spec fn query_string_spec(
    from: Option<Seq<char>>,
    to: Option<Seq<char>>,
    user: Option<Seq<char>>,
    mode: Seq<char>,
    status: Option<Seq<char>>,
    limit: Option<usize>,
) -> Seq<char> {
    "?"@ + amp_join(query_parts(from, to, user, mode, status, limit))
}

/// The login endpoint.
pub open spec fn login_url_spec(base: Seq<char>) -> Seq<char> {
    base + "/api/login"@
}

/// The attendance-logging endpoint.
pub open spec fn log_url_spec(base: Seq<char>) -> Seq<char> {
    base + "/api/log"@
}

/// The rankings endpoint: period segment, optional date segment.
pub open spec fn rankings_url_spec(base: Seq<char>, p: Period, date: Option<Seq<char>>) -> Seq<
    char,
> {
    base + "/api/rankings/"@ + p.seg() + (match date {
        Some(d) => "/"@ + d,
        None => Seq::empty(),
    })
}

/// The streaks endpoint.
pub open spec fn streaks_url_spec(base: Seq<char>) -> Seq<char> {
    base + "/api/streaks"@
}

/// The per-user statistics endpoint.
pub open spec fn stats_url_spec(base: Seq<char>, username: Seq<char>) -> Seq<char> {
    base + "/api/users/"@ + username + "/stats"@
}

/// The query endpoint: period segment plus the query string.
pub open spec fn query_url_spec(
    base: Seq<char>,
    period: Seq<char>,
    from: Option<Seq<char>>,
    to: Option<Seq<char>>,
    user: Option<Seq<char>>,
    mode: Seq<char>,
    status: Option<Seq<char>>,
    limit: Option<usize>,
) -> Seq<char> {
    base + "/api/query/"@ + period + query_string_spec(from, to, user, mode, status, limit)
}

/// The headers of an authenticated read under the given client.
pub open spec fn auth_headers_spec(api: Api, h: Seq<(String, String)>) -> bool {
    match api.scheme {
        AuthScheme::Bearer => h.len() == 2 && h[0].0@ == "Authorization"@ && h[0].1@ == "Bearer "@
            + api.token->0@ && h[1].0@ == "Accept"@ && h[1].1@ == "application/json"@,
        AuthScheme::Cookie => h.len() == 1 && h[0].0@ == "Accept"@ && h[0].1@
            == "application/json"@,
    }
}

/// The headers of the logging request: JSON content, and a bearer token
/// whenever the client holds one.
pub open spec fn log_headers_spec(api: Api, h: Seq<(String, String)>) -> bool {
    if api.scheme is Bearer && api.token is Some {
        h.len() == 2 && h[0].0@ == "Content-Type"@ && h[0].1@ == "application/json"@ && h[1].0@
            == "Authorization"@ && h[1].1@ == "Bearer "@ + api.token->0@
    } else {
        h.len() == 1 && h[0].0@ == "Content-Type"@ && h[0].1@ == "application/json"@
    }
}

/// One `key=value` string.
fn kv_string(key: &str, val: &str) -> (r: String)
    ensures
        r@ == kv(key@, val@),
{
    let mut s = String::new();
    s.append(key);
    s.append("=");
    s.append(val);
    proof {
        assert(s@ =~= kv(key@, val@));
    }
    s
}

/// Builds the query string of the query endpoint: only the supplied
/// parameters, in the fixed order, `mode` always present.
pub fn query_string(
    from: Option<&str>,
    to: Option<&str>,
    user: Option<&str>,
    mode: &str,
    status: Option<&str>,
    limit: Option<usize>,
) -> (r: String)
    ensures
        r@ == query_string_spec(o2v(from), o2v(to), o2v(user), mode@, o2v(status), limit),
{
    let ghost gp = query_parts(o2v(from), o2v(to), o2v(user), mode@, o2v(status), limit);
    let mut parts: Vec<String> = Vec::new();
    if let Some(f) = from {
        parts.push(kv_string("from", f));
    }
    if let Some(t) = to {
        parts.push(kv_string("to", t));
    }
    if let Some(u) = user {
        parts.push(kv_string("user", u));
    }
    parts.push(kv_string("mode", mode));
    if let Some(s) = status {
        parts.push(kv_string("status", s));
    }
    if let Some(n) = limit {
        let t = crate::numtext::fmt_usize(n);
        parts.push(kv_string("limit", t.as_str()));
    }
    proof {
        assert(parts@.len() == gp.len());
        assert(forall|i: int| 0 <= i < gp.len() ==> parts@[i]@ == gp[i]);
    }
    let mut out = String::new();
    out.append("?");
    out.append(parts[0].as_str());
    proof {
        assert(gp.subrange(0, 1) =~= seq![gp[0]]);
        assert(amp_join(gp.subrange(0, 1)) == gp[0]);
        assert(out@ =~= "?"@ + amp_join(gp.subrange(0, 1)));
    }
    let mut i: usize = 1;
    while i < parts.len()
        invariant
            1 <= i <= parts@.len(),
            parts@.len() == gp.len(),
            forall|j: int| 0 <= j < gp.len() ==> parts@[j]@ == gp[j],
            out@ == "?"@ + amp_join(gp.subrange(0, i as int)),
        decreases parts@.len() - i,
    {
        out.append("&");
        out.append(parts[i].as_str());
        proof {
            let pre = gp.subrange(0, i as int);
            let post = gp.subrange(0, i as int + 1);
            assert(post.drop_last() =~= pre);
            assert(post.last() == gp[i as int]);
            assert(amp_join(post) == amp_join(pre) + "&"@ + gp[i as int]);
            assert(out@ =~= "?"@ + amp_join(post));
        }
        i = i + 1;
    }
    proof {
        assert(gp.subrange(0, gp.len() as int) =~= gp);
    }
    out
}

/// Replies with `Ok` and the raw body exactly on a 2xx status, and with
/// `RequestError` carrying the status and that same raw body otherwise.
/// This is the single point where failure bodies are captured.
pub fn check_status(status: u16, body: String) -> (r: Result<String, ApiError>)
    ensures
        200 <= status < 300 ==> r == Ok::<String, ApiError>(body),
        !(200 <= status < 300) ==> r == Err::<String, ApiError>(
            ApiError::RequestError { status, body },
        ),
{
    if 200 <= status && status < 300 {
        Ok(body)
    } else {
        Err(ApiError::RequestError { status, body })
    }
}

/// Decodes the login response.  Any status but 200 is a rejection and
/// surfaces as `AuthError` carrying the server's body verbatim; a 200 body
/// must hold a non-empty token, which becomes the session credential.
pub fn login_result(status: u16, body: String) -> (r: Result<String, ApiError>)
    ensures
        status != 200 ==> r == Err::<String, ApiError>(ApiError::AuthError { body }),
        status == 200 && login_token_spec(body@) is Some ==> (r matches Ok(t) && login_token_spec(
            body@,
        ) == Some(t@) && t@.len() > 0),
        status == 200 && login_token_spec(body@) is None ==> r == Err::<String, ApiError>(
            ApiError::DecodeError { body },
        ),
{
    if status != 200 {
        return Err(ApiError::AuthError { body });
    }
    match login_token_from_json(body.as_str()) {
        Some(t) => Ok(t),
        None => Err(ApiError::DecodeError { body }),
    }
}

/// Decodes the logging response: success is empty, failure carries the
/// status and the raw body.
pub fn log_result(status: u16, body: String) -> (r: Result<(), ApiError>)
    ensures
        200 <= status < 300 ==> r is Ok,
        !(200 <= status < 300) ==> r == Err::<(), ApiError>(
            ApiError::RequestError { status, body },
        ),
{
    match check_status(status, body) {
        Ok(_) => Ok(()),
        Err(e) => Err(e),
    }
}

/// Decodes the rankings response: an array of ranking rows, in the
/// server's order, which the client must not re-sort.
pub fn rankings_result(status: u16, body: String) -> (r: Result<Vec<Ranking>, ApiError>)
    ensures
        !(200 <= status < 300) ==> r == Err::<Vec<Ranking>, ApiError>(
            ApiError::RequestError { status, body },
        ),
        200 <= status < 300 && rankings_json_parse(body@) is Some ==> (r matches Ok(v) && (
        rankings_json_parse(body@) matches Some(l) && l.len() == v@.len() && (forall|k: int|
            0 <= k < l.len() ==> l[k] == v@[k]@))),
        200 <= status < 300 && rankings_json_parse(body@) is None ==> r == Err::<
            Vec<Ranking>,
            ApiError,
        >(ApiError::DecodeError { body }),
{
    let b = match check_status(status, body) {
        Ok(b) => b,
        Err(e) => {
            return Err(e);
        },
    };
    match rankings_from_json(b.as_str()) {
        Some(v) => Ok(v),
        None => Err(ApiError::DecodeError { body: b }),
    }
}

/// Decodes the streaks response.
pub fn streaks_result(status: u16, body: String) -> (r: Result<Vec<Streak>, ApiError>)
    ensures
        !(200 <= status < 300) ==> r == Err::<Vec<Streak>, ApiError>(
            ApiError::RequestError { status, body },
        ),
        200 <= status < 300 && streaks_json_parse(body@) is Some ==> (r matches Ok(v) && (
        streaks_json_parse(body@) matches Some(l) && l.len() == v@.len() && (forall|k: int|
            0 <= k < l.len() ==> l[k] == v@[k]@))),
        200 <= status < 300 && streaks_json_parse(body@) is None ==> r == Err::<
            Vec<Streak>,
            ApiError,
        >(ApiError::DecodeError { body }),
{
    let b = match check_status(status, body) {
        Ok(b) => b,
        Err(e) => {
            return Err(e);
        },
    };
    match streaks_from_json(b.as_str()) {
        Some(v) => Ok(v),
        None => Err(ApiError::DecodeError { body: b }),
    }
}

/// Decodes the per-user statistics response.
pub fn stats_result(status: u16, body: String) -> (r: Result<StatsResponse, ApiError>)
    ensures
        !(200 <= status < 300) ==> r == Err::<StatsResponse, ApiError>(
            ApiError::RequestError { status, body },
        ),
        200 <= status < 300 && stats_json_parse(body@) is Some ==> (r matches Ok(v)
            && stats_json_parse(body@) == Some(v@)),
        200 <= status < 300 && stats_json_parse(body@) is None ==> r == Err::<
            StatsResponse,
            ApiError,
        >(ApiError::DecodeError { body }),
{
    let b = match check_status(status, body) {
        Ok(b) => b,
        Err(e) => {
            return Err(e);
        },
    };
    match stats_from_json(b.as_str()) {
        Some(v) => Ok(v),
        None => Err(ApiError::DecodeError { body: b }),
    }
}

/// Decodes the filtered-query response: an array of query rows.
pub fn query_data_result(status: u16, body: String) -> (r: Result<Vec<QueryResult>, ApiError>)
    ensures
        !(200 <= status < 300) ==> r == Err::<Vec<QueryResult>, ApiError>(
            ApiError::RequestError { status, body },
        ),
        200 <= status < 300 && query_results_json_parse(body@) is Some ==> (r matches Ok(v) && (
        query_results_json_parse(body@) matches Some(l) && l.len() == v@.len() && (forall|k: int|
            0 <= k < l.len() ==> l[k] == v@[k]@))),
        200 <= status < 300 && query_results_json_parse(body@) is None ==> r == Err::<
            Vec<QueryResult>,
            ApiError,
        >(ApiError::DecodeError { body }),
{
    let b = match check_status(status, body) {
        Ok(b) => b,
        Err(e) => {
            return Err(e);
        },
    };
    match query_results_from_json(b.as_str()) {
        Some(v) => Ok(v),
        None => Err(ApiError::DecodeError { body: b }),
    }
}

impl Api {
    /// A client in the bearer-token scheme, the service's usual one.
    pub fn new(base_url: String, token: Option<String>) -> (r: Api)
        ensures
            r.base_url == base_url,
            r.token == token,
            r.scheme is Bearer,
    {
        Api { base_url, token, scheme: AuthScheme::Bearer }
    }

    /// A client under an explicitly chosen authentication scheme.
    pub fn with_scheme(base_url: String, token: Option<String>, scheme: AuthScheme) -> (r: Api)
        ensures
            r.base_url == base_url,
            r.token == token,
            r.scheme == scheme,
    {
        Api { base_url, token, scheme }
    }

    /// Whether an authenticated operation may proceed: under the bearer
    /// scheme a token must be present; a cookie session needs none.
    pub open spec fn auth_ok(&self) -> bool {
        self.scheme is Cookie || self.token is Some
    }

    /// The headers of an authenticated read, or `NotAuthenticated` when the
    /// bearer scheme holds no token.  No request is built in that case.
    fn auth_headers(&self) -> (r: Result<Vec<(String, String)>, ApiError>)
        ensures
            r is Ok <==> self.auth_ok(),
            (r matches Ok(h) ==> auth_headers_spec(*self, h@)),
            (r matches Err(e) ==> e is NotAuthenticated),
    {
        match self.scheme {
            AuthScheme::Bearer => {
                match &self.token {
                    Some(t) => {
                        let mut bearer = String::new();
                        bearer.append("Bearer ");
                        bearer.append(t.as_str());
                        proof {
                            assert(bearer@ =~= "Bearer "@ + t@);
                        }
                        let mut h: Vec<(String, String)> = Vec::new();
                        h.push((String::from_str("Authorization"), bearer));
                        h.push(
                            (String::from_str("Accept"), String::from_str("application/json")),
                        );
                        Ok(h)
                    },
                    None => Err(ApiError::NotAuthenticated),
                }
            },
            AuthScheme::Cookie => {
                let mut h: Vec<(String, String)> = Vec::new();
                h.push((String::from_str("Accept"), String::from_str("application/json")));
                Ok(h)
            },
        }
    }

    /// Builds the login operation: a POST of the credentials as JSON.
    /// Credentials that cannot travel in JSON are rejected locally.
    pub fn login_request(&self, username: &str, password: &str) -> (r: Result<
        HttpRequest,
        ApiError,
    >)
        ensures
            r is Ok <==> json_safe(username@) && json_safe(password@),
            (r matches Ok(req) ==> req.method is Post && req.url@ == login_url_spec(
                self.base_url@,
            ) && (req.body matches Some(b) && b@ == login_body_spec(username@, password@))
                && req.headers@.len() == 1 && req.headers@[0].0@ == "Content-Type"@
                && req.headers@[0].1@ == "application/json"@),
            (r matches Err(e) ==> e is ValidationError),
    {
        if !is_json_safe(username) || !is_json_safe(password) {
            return Err(
                ApiError::ValidationError {
                    detail: String::from_str("credentials hold characters that cannot travel in JSON"),
                },
            );
        }
        let mut url = String::new();
        url.append(self.base_url.as_str());
        url.append("/api/login");
        proof {
            assert(url@ =~= login_url_spec(self.base_url@));
        }
        let mut headers: Vec<(String, String)> = Vec::new();
        headers.push((String::from_str("Content-Type"), String::from_str("application/json")));
        Ok(
            HttpRequest {
                method: Method::Post,
                url,
                headers,
                body: Some(login_body(username, password)),
            },
        )
    }

    /// Builds the attendance-logging operation: a POST of the entry as
    /// JSON, with a bearer token attached whenever the client holds one —
    /// anonymous logging stays possible.
    pub fn log_request(&self, entry: &AttendanceEntry) -> (r: Result<HttpRequest, ApiError>)
        ensures
            r is Ok <==> entry@.wf(),
            (r matches Ok(req) ==> req.method is Post && req.url@ == log_url_spec(self.base_url@)
                && (req.body matches Some(b) && b@ == entry_json_spec(entry@))
                && log_headers_spec(*self, req.headers@)),
            (r matches Err(e) ==> e is ValidationError),
    {
        let fields_ok = is_json_safe(entry.date.as_str()) && is_json_safe(entry.time.as_str())
            && is_json_safe(entry.name.as_str()) && is_json_safe(entry.status.as_str());
        if !fields_ok {
            return Err(
                ApiError::ValidationError {
                    detail: String::from_str("entry holds characters that cannot travel in JSON"),
                },
            );
        }
        let mut url = String::new();
        url.append(self.base_url.as_str());
        url.append("/api/log");
        proof {
            assert(url@ =~= log_url_spec(self.base_url@));
        }
        let mut headers: Vec<(String, String)> = Vec::new();
        headers.push((String::from_str("Content-Type"), String::from_str("application/json")));
        let attach_bearer = match self.scheme {
            AuthScheme::Bearer => self.token.is_some(),
            AuthScheme::Cookie => false,
        };
        if attach_bearer {
            let mut bearer = String::new();
            bearer.append("Bearer ");
            match &self.token {
                Some(t) => bearer.append(t.as_str()),
                None => {},
            }
            proof {
                assert(bearer@ =~= "Bearer "@ + self.token->0@);
            }
            headers.push((String::from_str("Authorization"), bearer));
        }
        Ok(
            HttpRequest {
                method: Method::Post,
                url,
                headers,
                body: Some(entry_json(entry)),
            },
        )
    }

    /// Builds the rankings read: `/api/rankings/{period}` with an optional
    /// `/{date}` segment.  The date must be a well-formed calendar date.
    pub fn rankings_request(&self, period: Period, date: Option<&str>) -> (r: Result<
        HttpRequest,
        ApiError,
    >)
        ensures
            r is Ok <==> self.auth_ok() && (date matches Some(d) ==> date_ok(d@)),
            (r matches Ok(req) ==> req.method is Get && req.url@ == rankings_url_spec(
                self.base_url@,
                period,
                o2v(date),
            ) && auth_headers_spec(*self, req.headers@) && req.body is None),
            (r matches Err(e) ==> (e is NotAuthenticated <==> !self.auth_ok()) && (!(
            e is NotAuthenticated) ==> e is ValidationError)),
    {
        let headers = match self.auth_headers() {
            Ok(h) => h,
            Err(e) => {
                return Err(e);
            },
        };
        if let Some(d) = date {
            if !is_date_ok(d) {
                return Err(
                    ApiError::ValidationError {
                        detail: String::from_str("the date is not a YYYY-MM-DD calendar date"),
                    },
                );
            }
        }
        let mut url = String::new();
        url.append(self.base_url.as_str());
        url.append("/api/rankings/");
        url.append(period.as_str());
        if let Some(d) = date {
            url.append("/");
            url.append(d);
        }
        proof {
            assert(url@ =~= rankings_url_spec(self.base_url@, period, o2v(date)));
        }
        Ok(HttpRequest { method: Method::Get, url, headers, body: None })
    }

    /// Builds the streaks read.
    pub fn streaks_request(&self) -> (r: Result<HttpRequest, ApiError>)
        ensures
            r is Ok <==> self.auth_ok(),
            (r matches Ok(req) ==> req.method is Get && req.url@ == streaks_url_spec(
                self.base_url@,
            ) && auth_headers_spec(*self, req.headers@) && req.body is None),
            (r matches Err(e) ==> e is NotAuthenticated),
    {
        let headers = match self.auth_headers() {
            Ok(h) => h,
            Err(e) => {
                return Err(e);
            },
        };
        let mut url = String::new();
        url.append(self.base_url.as_str());
        url.append("/api/streaks");
        proof {
            assert(url@ =~= streaks_url_spec(self.base_url@));
        }
        Ok(HttpRequest { method: Method::Get, url, headers, body: None })
    }

    /// Builds the per-user statistics read: `/api/users/{username}/stats`.
    /// The name must travel unescaped in the path.
    pub fn stats_request(&self, username: &str) -> (r: Result<HttpRequest, ApiError>)
        ensures
            r is Ok <==> self.auth_ok() && url_safe(username@),
            (r matches Ok(req) ==> req.method is Get && req.url@ == stats_url_spec(
                self.base_url@,
                username@,
            ) && auth_headers_spec(*self, req.headers@) && req.body is None),
            (r matches Err(e) ==> (e is NotAuthenticated <==> !self.auth_ok()) && (!(
            e is NotAuthenticated) ==> e is ValidationError)),
    {
        let headers = match self.auth_headers() {
            Ok(h) => h,
            Err(e) => {
                return Err(e);
            },
        };
        if !is_url_safe(username) {
            return Err(
                ApiError::ValidationError {
                    detail: String::from_str("the user name cannot stand in a URL path"),
                },
            );
        }
        let mut url = String::new();
        url.append(self.base_url.as_str());
        url.append("/api/users/");
        url.append(username);
        url.append("/stats");
        proof {
            assert(url@ =~= stats_url_spec(self.base_url@, username@));
        }
        Ok(HttpRequest { method: Method::Get, url, headers, body: None })
    }

    /// Builds the filtered query read: `/api/query/{period}` plus a query
    /// string holding exactly the supplied parameters, in the order
    /// from, to, user, mode, status, limit, with `mode` always present.
    /// Dates must be well-formed and every value must travel unescaped.
    pub fn query_request(
        &self,
        period: &str,
        from: Option<&str>,
        to: Option<&str>,
        user: Option<&str>,
        mode: &str,
        status: Option<&str>,
        limit: Option<usize>,
    ) -> (r: Result<HttpRequest, ApiError>)
        ensures
            r is Ok <==> self.auth_ok() && url_safe(period@) && period@.len() > 0 && (
            from matches Some(d) ==> date_ok(d@)) && (to matches Some(d) ==> date_ok(d@)) && (
            user matches Some(u) ==> url_safe(u@)) && url_safe(mode@) && (
            status matches Some(s) ==> url_safe(s@)),
            (r matches Ok(req) ==> req.method is Get && req.url@ == query_url_spec(
                self.base_url@,
                period@,
                o2v(from),
                o2v(to),
                o2v(user),
                mode@,
                o2v(status),
                limit,
            ) && auth_headers_spec(*self, req.headers@) && req.body is None),
            (r matches Err(e) ==> (e is NotAuthenticated <==> !self.auth_ok()) && (!(
            e is NotAuthenticated) ==> e is ValidationError)),
    {
        let headers = match self.auth_headers() {
            Ok(h) => h,
            Err(e) => {
                return Err(e);
            },
        };
        let period_ok = is_url_safe(period) && period.unicode_len() > 0;
        let from_ok = match from {
            Some(d) => is_date_ok(d),
            None => true,
        };
        let to_ok = match to {
            Some(d) => is_date_ok(d),
            None => true,
        };
        let user_ok = match user {
            Some(u) => is_url_safe(u),
            None => true,
        };
        let status_ok = match status {
            Some(s) => is_url_safe(s),
            None => true,
        };
        if !(period_ok && from_ok && to_ok && user_ok && is_url_safe(mode) && status_ok) {
            return Err(
                ApiError::ValidationError {
                    detail: String::from_str("a query parameter cannot stand in a URL"),
                },
            );
        }
        let qs = query_string(from, to, user, mode, status, limit);
        let mut url = String::new();
        url.append(self.base_url.as_str());
        url.append("/api/query/");
        url.append(period);
        url.append(qs.as_str());
        proof {
            assert(url@ =~= query_url_spec(
                self.base_url@,
                period@,
                o2v(from),
                o2v(to),
                o2v(user),
                mode@,
                o2v(status),
                limit,
            ));
        }
        Ok(HttpRequest { method: Method::Get, url, headers, body: None })
    }
}

} // verus!
