use lic_cli::commands::{ConfigCommand, LogCommand, LoginCommand};
use lic_cli::config::Config;
use lic_cli::models::Period;
use lic_cli::numtext::{fmt_i32, fmt_u32, fmt_usize};
use lic_cli::validate::{is_date_ok, is_json_safe, is_time_ok, is_url_safe};

#[test]
fn first_run_defaults() {
    let c = Config::first_run();
    assert_eq!(c.api_url, "http://localhost:4030");
    assert_eq!(c.username, "");
    assert!(c.api_token.is_none());
    assert!(!c.has_token());
}

#[test]
fn with_updates_replaces_only_given_fields() {
    let c = Config {
        api_url: "http://a".to_string(),
        username: "u".to_string(),
        api_token: Some("t".to_string()),
    };
    let c2 = c.clone().with_updates(Some("http://b".to_string()), None);
    assert_eq!(c2.api_url, "http://b");
    assert_eq!(c2.username, "u");
    assert_eq!(c2.api_token.as_deref(), Some("t"));
    let c3 = c.clone().with_updates(None, Some("w".to_string()));
    assert_eq!(c3.api_url, "http://a");
    assert_eq!(c3.username, "w");
    let c4 = c.with_updates(None, None);
    assert_eq!(c4.api_url, "http://a");
    assert_eq!(c4.username, "u");
}

#[test]
fn with_login_sets_name_and_token_keeps_url() {
    let c = Config::first_run().with_login("bob".to_string(), "tok".to_string());
    assert_eq!(c.api_url, "http://localhost:4030");
    assert_eq!(c.username, "bob");
    assert_eq!(c.api_token.as_deref(), Some("tok"));
}

#[test]
fn config_command_flags_win_over_prompts() {
    let base = Config::first_run();
    let cmd = ConfigCommand { api_url: Some("http://flag".to_string()), username: None };
    let updated = cmd.updated(base.clone(), "http://prompt".to_string(), "prompted".to_string());
    assert_eq!(updated.api_url, "http://flag");
    assert_eq!(updated.username, "");
    let all_prompted = ConfigCommand { api_url: None, username: None }.updated(
        base,
        "http://prompt".to_string(),
        "prompted".to_string(),
    );
    assert_eq!(all_prompted.api_url, "http://prompt");
    assert_eq!(all_prompted.username, "prompted");
}

#[test]
fn login_command_flags_win() {
    let cmd = LoginCommand { username: Some("flag".to_string()), password: None };
    assert_eq!(cmd.resolve_username("typed".to_string()), "flag");
    assert_eq!(cmd.resolve_password("typed".to_string()), "typed");
}

#[test]
fn log_command_absence_statuses_take_sentinel_time() {
    let cmd = LogCommand { status: None, time: None };
    let e = cmd.entry(
        "2024-03-04".to_string(),
        "bob".to_string(),
        "sick".to_string(),
        "08:30".to_string(),
    );
    assert_eq!(e.time, "00:00");
    assert_eq!(e.status, "sick");
    assert_eq!(e.date, "2024-03-04");
    assert_eq!(e.name, "bob");
}

#[test]
fn log_command_office_status_keeps_entered_time() {
    let cmd = LogCommand { status: None, time: None };
    let e = cmd.entry(
        "2024-03-04".to_string(),
        "bob".to_string(),
        "in-office".to_string(),
        "08:30".to_string(),
    );
    assert_eq!(e.time, "08:30");
}

#[test]
fn log_command_time_flag_wins() {
    let cmd = LogCommand { status: Some("leave".to_string()), time: Some("13:37".to_string()) };
    let e = cmd.entry("d".to_string(), "n".to_string(), "x".to_string(), "y".to_string());
    assert_eq!(e.time, "13:37");
    assert_eq!(e.status, "leave");
}

#[test]
fn period_segments() {
    assert_eq!(Period::Day.as_str(), "day");
    assert_eq!(Period::Week.as_str(), "week");
    assert_eq!(Period::Month.as_str(), "month");
}

#[test]
fn date_validation_knows_the_calendar() {
    assert!(is_date_ok("2024-01-31"));
    assert!(is_date_ok("2024-02-29"));
    assert!(!is_date_ok("2023-02-29"));
    assert!(is_date_ok("2000-02-29"));
    assert!(!is_date_ok("1900-02-29"));
    assert!(!is_date_ok("2024-04-31"));
    assert!(!is_date_ok("2024-13-01"));
    assert!(!is_date_ok("2024-00-10"));
    assert!(!is_date_ok("2024-01-00"));
    assert!(!is_date_ok("2024-1-01"));
    assert!(!is_date_ok("01/02/2024"));
    assert!(!is_date_ok(""));
}

#[test]
fn time_validation() {
    assert!(is_time_ok("00:00"));
    assert!(is_time_ok("23:59"));
    assert!(!is_time_ok("24:00"));
    assert!(!is_time_ok("12:60"));
    assert!(!is_time_ok("7:30"));
    assert!(!is_time_ok("0730"));
}

#[test]
fn url_and_json_safety() {
    assert!(is_url_safe("alice-2_x.y~"));
    assert!(!is_url_safe("a b"));
    assert!(!is_url_safe("a/b"));
    assert!(!is_url_safe("a&b=c"));
    assert!(is_json_safe("plain text with spaces"));
    assert!(!is_json_safe("a\"b"));
    assert!(!is_json_safe("a\\b"));
    assert!(!is_json_safe("line\nbreak"));
}

#[test]
fn decimal_formatting_is_exact() {
    assert_eq!(fmt_u32(0), "0");
    assert_eq!(fmt_u32(4030), "4030");
    assert_eq!(fmt_u32(u32::MAX), "4294967295");
    assert_eq!(fmt_usize(10), "10");
    assert_eq!(fmt_i32(-7), "-7");
    assert_eq!(fmt_i32(i32::MIN), "-2147483648");
    assert_eq!(fmt_i32(i32::MAX), "2147483647");
}
