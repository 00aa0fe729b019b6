use lic_cli::api::{check_status, log_result, login_result, rankings_result, Api, AuthScheme, Method};
use lic_cli::commands::{QueryCommand, StatsCommand, StreaksCommand};
use lic_cli::config::Config;
use lic_cli::errors::ApiError;
use lic_cli::models::Period;

fn bearer_api(base: &str) -> Api {
    Api::new(base.to_string(), Some("tok123".to_string()))
}

#[test]
fn login_request_builds_exact_body_and_url() {
    let api = Api::new("http://localhost:4030".to_string(), None);
    let req = api.login_request("bob", "hunter2").unwrap();
    assert!(matches!(req.method, Method::Post));
    assert_eq!(req.url, "http://localhost:4030/api/login");
    assert_eq!(req.body.as_deref(), Some("{\"username\":\"bob\",\"password\":\"hunter2\"}"));
    assert_eq!(req.headers.len(), 1);
    assert_eq!(req.headers[0].0, "Content-Type");
    assert_eq!(req.headers[0].1, "application/json");
}

#[test]
fn login_request_rejects_unescapable_credentials() {
    let api = Api::new(String::new(), None);
    let r = api.login_request("bo\"b", "pw");
    assert!(matches!(r, Err(ApiError::ValidationError { .. })));
}

#[test]
fn rankings_request_builds_period_and_date_path() {
    let api = bearer_api("http://x");
    let req = api.rankings_request(Period::Week, Some("2024-01-15")).unwrap();
    assert!(matches!(req.method, Method::Get));
    assert_eq!(req.url, "http://x/api/rankings/week/2024-01-15");
    assert_eq!(req.headers[0].0, "Authorization");
    assert_eq!(req.headers[0].1, "Bearer tok123");
    assert_eq!(req.headers[1].0, "Accept");
    assert_eq!(req.headers[1].1, "application/json");
    assert!(req.body.is_none());
}

#[test]
fn rankings_request_without_date() {
    let api = bearer_api("http://x");
    let req = api.rankings_request(Period::Day, None).unwrap();
    assert_eq!(req.url, "http://x/api/rankings/day");
}

#[test]
fn rankings_request_rejects_bad_date() {
    let api = bearer_api("http://x");
    let r = api.rankings_request(Period::Day, Some("2024-02-30"));
    assert!(matches!(r, Err(ApiError::ValidationError { .. })));
}

#[test]
fn stats_request_builds_user_path() {
    let api = bearer_api("http://x");
    let req = api.stats_request("alice").unwrap();
    assert_eq!(req.url, "http://x/api/users/alice/stats");
}

#[test]
fn stats_request_rejects_unsafe_name() {
    let api = bearer_api("http://x");
    assert!(matches!(api.stats_request("a b"), Err(ApiError::ValidationError { .. })));
}

#[test]
fn streaks_request_builds_path() {
    let api = bearer_api("http://x");
    assert_eq!(api.streaks_request().unwrap().url, "http://x/api/streaks");
}

// Invoking `stats` with no token set fails locally, before any request
// value exists, so no network call can have been made.
#[test]
fn stats_without_token_is_not_authenticated() {
    let api = Api::new("http://x".to_string(), None);
    let config = Config::first_run();
    let cmd = StatsCommand { user: Some("alice".to_string()) };
    let r = cmd.request(&api, &config);
    assert!(matches!(r, Err(ApiError::NotAuthenticated)));
}

#[test]
fn streaks_without_token_is_not_authenticated() {
    let api = Api::new("http://x".to_string(), None);
    let r = StreaksCommand {}.request(&api);
    assert!(matches!(r, Err(ApiError::NotAuthenticated)));
}

// Under the cookie scheme the transport carries the credential, so reads
// go through without a token and without re-authenticating.
#[test]
fn cookie_scheme_reads_need_no_token() {
    let api = Api::with_scheme("http://x".to_string(), None, AuthScheme::Cookie);
    let req = api.streaks_request().unwrap();
    assert_eq!(req.headers.len(), 1);
    assert_eq!(req.headers[0].0, "Accept");
}

// `query_data` with from set, to absent, mode `last-in` emits exactly the
// from and mode parameters and no `to=` fragment.
#[test]
fn query_request_emits_only_supplied_parameters() {
    let api = bearer_api("");
    let req = api
        .query_request("day", Some("2024-01-01"), None, None, "last-in", None, None)
        .unwrap();
    assert_eq!(req.url, "/api/query/day?from=2024-01-01&mode=last-in");
}

#[test]
fn query_request_full_parameter_order() {
    let api = bearer_api("");
    let req = api
        .query_request(
            "week",
            Some("2024-01-01"),
            Some("2024-02-01"),
            Some("alice"),
            "last-in",
            Some("remote"),
            Some(10),
        )
        .unwrap();
    assert_eq!(
        req.url,
        "/api/query/week?from=2024-01-01&to=2024-02-01&user=alice&mode=last-in&status=remote&limit=10"
    );
}

#[test]
fn query_request_mode_only() {
    let api = bearer_api("");
    let req = api.query_request("day", None, None, None, "average", None, None).unwrap();
    assert_eq!(req.url, "/api/query/day?mode=average");
}

#[test]
fn query_command_rejects_unparsable_date() {
    let api = bearer_api("");
    let cmd = QueryCommand {
        period: "day".to_string(),
        from: Some("01/02/2024".to_string()),
        to: None,
        user: None,
        mode: "last-in".to_string(),
        status: None,
        limit: None,
    };
    assert!(matches!(cmd.request(&api), Err(ApiError::ValidationError { .. })));
}

// A non-2xx response surfaces the status and the raw body, untouched.
#[test]
fn check_status_keeps_error_body_verbatim() {
    let body = "a body with  spaces\nand a line".to_string();
    match check_status(500, body.clone()) {
        Err(ApiError::RequestError { status, body: b }) => {
            assert_eq!(status, 500);
            assert_eq!(b, body);
        },
        _ => panic!("expected RequestError"),
    }
}

#[test]
fn check_status_passes_success_body_through() {
    assert_eq!(check_status(204, "x".to_string()).unwrap(), "x");
}

// `log_attendance` against a 400 response raises a request error whose
// message carries the server body.
#[test]
fn log_attendance_error_carries_server_body() {
    let r = log_result(400, "{\"error\":\"invalid status\"}".to_string());
    match r {
        Err(e) => {
            assert!(matches!(e, ApiError::RequestError { status: 400, .. }));
            assert!(e.message().contains("invalid status"));
        },
        Ok(_) => panic!("expected an error"),
    }
}

#[test]
fn log_result_accepts_any_2xx() {
    assert!(log_result(201, String::new()).is_ok());
}

#[test]
fn login_result_rejection_is_auth_error_with_body() {
    match login_result(401, "bad credentials".to_string()) {
        Err(e) => {
            assert!(matches!(e, ApiError::AuthError { .. }));
            assert_eq!(e.message(), "Login failed: bad credentials");
        },
        Ok(_) => panic!("expected an error"),
    }
}

// Every successful login yields a non-empty token, and recording it in the
// session leaves a non-empty credential there.
#[test]
fn login_result_token_is_nonempty_and_enters_session() {
    let t = login_result(200, "{\"token\":\"abc123\"}".to_string()).unwrap();
    assert_eq!(t, "abc123");
    let c = Config::first_run().with_login("bob".to_string(), t);
    assert!(c.has_token());
    assert_eq!(c.api_token.as_deref(), Some("abc123"));
    assert!(!c.api_token.unwrap().is_empty());
}

#[test]
fn login_result_empty_token_is_decode_error() {
    let r = login_result(200, "{\"token\":\"\"}".to_string());
    assert!(matches!(r, Err(ApiError::DecodeError { .. })));
}

#[test]
fn login_result_missing_token_is_decode_error() {
    let r = login_result(200, "{}".to_string());
    assert!(matches!(r, Err(ApiError::DecodeError { .. })));
}

#[test]
fn rankings_result_bad_body_is_decode_error_with_body() {
    match rankings_result(200, "not json".to_string()) {
        Err(ApiError::DecodeError { body }) => assert_eq!(body, "not json"),
        _ => panic!("expected DecodeError"),
    }
}

#[test]
fn transport_error_message_carries_detail() {
    let e = ApiError::TransportError { detail: "connection refused".to_string() };
    assert!(e.message().contains("connection refused"));
}

#[test]
fn not_authenticated_message_points_at_login() {
    assert_eq!(ApiError::NotAuthenticated.message(), "Not logged in. Please run `lic login` first.");
}

#[test]
fn request_error_message_is_exact() {
    let e = ApiError::RequestError { status: 404, body: "gone".to_string() };
    assert_eq!(e.message(), "API request failed: 404 - gone");
}

#[test]
fn streaks_result_decodes_rows() {
    let body = "[{\"username\":\"carol\",\"current_streak\":4,\"max_streak\":9,\"streak_start\":\"2024-01-02\"}]";
    let streaks = lic_cli::api::streaks_result(200, body.to_string()).unwrap();
    assert_eq!(streaks.len(), 1);
    assert_eq!(streaks[0].username, "carol");
    assert_eq!(streaks[0].current_streak, 4);
    assert_eq!(streaks[0].max_streak, 9);
    assert_eq!(streaks[0].streak_start.as_deref(), Some("2024-01-02"));
}

#[test]
fn stats_result_decodes_aggregate() {
    let body = "{\"average_arrival_time\":\"08:40\",\"score\":12.5,\"stats\":{\"days\":20,\"in_office\":12,\"remote\":6,\"sick\":1,\"leave\":1}}";
    let stats = lic_cli::api::stats_result(200, body.to_string()).unwrap();
    assert_eq!(stats.average_arrival_time, "08:40");
    assert_eq!(stats.score, "12.5");
    assert_eq!(stats.stats.days, 20);
    assert_eq!(stats.stats.leave, 1);
}

#[test]
fn query_data_result_decodes_rows() {
    let body = "[{\"date\":\"2024-01-01\",\"name\":\"erin\",\"status\":\"remote\",\"time\":\"08:15\",\"score\":7.25,\"streak\":null}]";
    let rows = lic_cli::api::query_data_result(200, body.to_string()).unwrap();
    assert_eq!(rows.len(), 1);
    assert_eq!(rows[0].name, "erin");
    assert_eq!(rows[0].streak, None);
}

#[test]
fn query_data_result_non_2xx_keeps_body() {
    match lic_cli::api::query_data_result(503, "busy".to_string()) {
        Err(ApiError::RequestError { status, body }) => {
            assert_eq!(status, 503);
            assert_eq!(body, "busy");
        },
        _ => panic!("expected RequestError"),
    }
}

#[test]
fn rankings_command_builds_request() {
    let api = bearer_api("http://x");
    let cmd = lic_cli::commands::RankingsCommand {
        period: Period::Month,
        date: Some("2024-06-01".to_string()),
    };
    let req = cmd.request(&api).unwrap();
    assert_eq!(req.url, "http://x/api/rankings/month/2024-06-01");
}

#[test]
fn log_request_attaches_bearer_when_present() {
    let entry = lic_cli::models::AttendanceEntry {
        date: "2024-03-04".to_string(),
        time: "00:00".to_string(),
        name: "bob".to_string(),
        status: "sick".to_string(),
    };
    let api = bearer_api("http://x");
    let req = api.log_request(&entry).unwrap();
    assert_eq!(req.url, "http://x/api/log");
    assert_eq!(req.headers.len(), 2);
    assert_eq!(req.headers[1].0, "Authorization");
    assert_eq!(req.headers[1].1, "Bearer tok123");
    let anon = Api::new("http://x".to_string(), None);
    let req2 = anon.log_request(&entry).unwrap();
    assert_eq!(req2.headers.len(), 1);
    assert_eq!(req2.headers[0].0, "Content-Type");
}
