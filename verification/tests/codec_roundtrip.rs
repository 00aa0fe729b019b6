use lic_cli::api::rankings_result;
use lic_cli::codec::{
    config_json, entry_json, login_body, query_result_json, ranking_json, stats_response_json,
    streak_json,
};
use lic_cli::config::Config;
use lic_cli::decode::{
    config_from_json, login_token_from_json, query_result_from_json, query_results_from_json,
    ranking_from_json, rankings_from_json, stats_from_json, streak_from_json, streaks_from_json,
};
use lic_cli::models::{
    AttendanceEntry, QueryResult, Ranking, RankingStats, StatsDetail, StatsResponse, Streak,
};

fn sample_ranking() -> Ranking {
    Ranking {
        name: "alice".to_string(),
        score: "9.5".to_string(),
        streak: Some(3),
        average_arrival_time: "08:55".to_string(),
        stats: RankingStats { in_office: 5, remote: 0, sick: 0, leave: 0, days: 5 },
    }
}

// The mock rankings body of one row decodes to exactly one ranking with
// the advertised name and streak.
#[test]
fn one_row_rankings_body_decodes() {
    let body = "[{\"name\":\"alice\",\"score\":9.5,\"streak\":3,\"average_arrival_time\":\"08:55\",\"stats\":{\"in_office\":5,\"remote\":0,\"sick\":0,\"leave\":0,\"days\":5}}]";
    let rankings = rankings_result(200, body.to_string()).unwrap();
    assert_eq!(rankings.len(), 1);
    assert_eq!(rankings[0].name, "alice");
    assert_eq!(rankings[0].streak, Some(3));
    assert_eq!(rankings[0].score, "9.5");
    assert_eq!(rankings[0].stats.in_office, 5);
    assert_eq!(rankings[0], sample_ranking());
}

#[test]
fn ranking_roundtrips_identically() {
    let r = sample_ranking();
    let text = ranking_json(&r);
    assert_eq!(
        text,
        "{\"name\":\"alice\",\"score\":9.5,\"streak\":3,\"average_arrival_time\":\"08:55\",\"stats\":{\"in_office\":5,\"remote\":0,\"sick\":0,\"leave\":0,\"days\":5}}"
    );
    assert_eq!(ranking_from_json(&text), Some(r));
}

#[test]
fn ranking_without_streak_roundtrips() {
    let r = Ranking {
        name: "bob".to_string(),
        score: "0".to_string(),
        streak: None,
        average_arrival_time: "09:10".to_string(),
        stats: RankingStats { in_office: 1, remote: 2, sick: 0, leave: 0, days: 3 },
    };
    let text = ranking_json(&r);
    assert!(text.contains("\"streak\":null"));
    assert_eq!(ranking_from_json(&text), Some(r));
}

#[test]
fn streak_roundtrips_identically() {
    let s = Streak {
        username: "carol".to_string(),
        current_streak: 4,
        max_streak: 9,
        streak_start: Some("2024-01-02".to_string()),
    };
    let text = streak_json(&s);
    assert_eq!(
        text,
        "{\"username\":\"carol\",\"current_streak\":4,\"max_streak\":9,\"streak_start\":\"2024-01-02\"}"
    );
    assert_eq!(streak_from_json(&text), Some(s));
}

#[test]
fn streak_with_negative_and_null_roundtrips() {
    let s = Streak {
        username: "dan".to_string(),
        current_streak: -1,
        max_streak: 0,
        streak_start: None,
    };
    let text = streak_json(&s);
    assert!(text.contains("\"current_streak\":-1"));
    assert!(text.contains("\"streak_start\":null"));
    assert_eq!(streak_from_json(&text), Some(s));
}

#[test]
fn query_result_roundtrips_identically() {
    let q = QueryResult {
        date: "2024-01-01".to_string(),
        name: "erin".to_string(),
        status: "remote".to_string(),
        time: "08:15".to_string(),
        score: "7.25".to_string(),
        streak: Some(2),
    };
    let text = query_result_json(&q);
    assert_eq!(query_result_from_json(&text), Some(q));
}

#[test]
fn stats_response_roundtrips_identically() {
    let s = StatsResponse {
        average_arrival_time: "08:40".to_string(),
        score: "12.5".to_string(),
        stats: StatsDetail { days: 20, in_office: 12, remote: 6, sick: 1, leave: 1 },
    };
    let text = stats_response_json(&s);
    assert_eq!(
        text,
        "{\"average_arrival_time\":\"08:40\",\"score\":12.5,\"stats\":{\"days\":20,\"in_office\":12,\"remote\":6,\"sick\":1,\"leave\":1}}"
    );
    assert_eq!(stats_from_json(&text), Some(s));
}

#[test]
fn config_roundtrips_identically() {
    let c = Config {
        api_url: "http://localhost:4030".to_string(),
        username: "bob".to_string(),
        api_token: Some("tok".to_string()),
    };
    let text = config_json(&c);
    assert_eq!(config_from_json(&text), Some(c));
    let bare = Config::first_run();
    assert_eq!(config_from_json(&config_json(&bare)), Some(bare));
}

#[test]
fn entry_json_is_exact() {
    let e = AttendanceEntry {
        date: "2024-03-04".to_string(),
        time: "08:30".to_string(),
        name: "bob".to_string(),
        status: "in-office".to_string(),
    };
    assert_eq!(
        entry_json(&e),
        "{\"date\":\"2024-03-04\",\"time\":\"08:30\",\"name\":\"bob\",\"status\":\"in-office\"}"
    );
}

#[test]
fn login_body_is_exact() {
    assert_eq!(login_body("a", "b"), "{\"username\":\"a\",\"password\":\"b\"}");
}

#[test]
fn empty_array_bodies_decode_to_empty_lists() {
    assert_eq!(rankings_from_json("[]"), Some(vec![]));
    assert_eq!(streaks_from_json("[]"), Some(vec![]));
    assert_eq!(query_results_from_json("[]"), Some(vec![]));
}

#[test]
fn multi_row_rankings_keep_server_order() {
    let a = sample_ranking();
    let mut b = sample_ranking();
    b.name = "bob".to_string();
    b.streak = None;
    let body = format!("[{},{}]", ranking_json(&a), ranking_json(&b));
    let decoded = rankings_from_json(&body).unwrap();
    assert_eq!(decoded, vec![a, b]);
}

#[test]
fn malformed_bodies_decode_to_none() {
    assert_eq!(rankings_from_json(""), None);
    assert_eq!(rankings_from_json("{\"name\":\"a\"}"), None);
    assert_eq!(ranking_from_json("{\"name\":\"alice\"}"), None);
    assert_eq!(streak_from_json("{\"username\":\"x\",\"current_streak\":\"no\"}"), None);
    assert_eq!(login_token_from_json("{\"token\":3}"), None);
}

#[test]
fn trailing_text_is_rejected() {
    let r = sample_ranking();
    let mut text = ranking_json(&r).to_string();
    text.push_str("extra");
    assert_eq!(ranking_from_json(&text), None);
}

#[test]
fn login_token_reads_back() {
    assert_eq!(login_token_from_json("{\"token\":\"t0k\"}"), Some("t0k".to_string()));
    assert_eq!(login_token_from_json("{\"token\":\"\"}"), None);
}

#[test]
fn int_bounds_roundtrip() {
    let s = Streak {
        username: "e".to_string(),
        current_streak: i32::MIN,
        max_streak: i32::MAX,
        streak_start: None,
    };
    let text = streak_json(&s);
    assert!(text.contains("\"current_streak\":-2147483648"));
    assert!(text.contains("\"max_streak\":2147483647"));
    assert_eq!(streak_from_json(&text), Some(s));
}
