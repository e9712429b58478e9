use chronology_gateway::headers::{find_header, include_headers, Header};
use chronology_gateway::port::{filter_listen_address, parse_port};
use chronology_gateway::prune::{
    is_success_status, plan_prune, prune_interval_millis, prune_outcome, prune_url, PruneOutcome,
};
use chronology_gateway::text::{lower_ascii_char, str_eq_ignore_ascii_case, str_equal};
use chronology_gateway::upstream::{
    build_url, is_whole_sessions_request, plan_upstream, route_method, ProxyPlan, Route, UpstreamMethod,
};

fn header(name: &str, value: &str) -> Header {
    Header { name: name.to_string(), value: value.as_bytes().to_vec() }
}

fn pairs(hs: &[Header]) -> Vec<(String, Vec<u8>)> {
    hs.iter().map(|h| (h.name.clone(), h.value.clone())).collect()
}

#[test]
fn url_with_query() {
    assert_eq!(
        build_url("localhost", "3000", "timelines", "select=id&limit=5"),
        "http://localhost:3000/timelines?select=id&limit=5"
    );
}

#[test]
fn url_without_query_has_no_question_mark() {
    assert_eq!(build_url("pgrst", "3001", "sessions", ""), "http://pgrst:3001/sessions");
}

#[test]
fn url_with_empty_path() {
    assert_eq!(build_url("pgrst", "3001", "", "a=1"), "http://pgrst:3001/?a=1");
}

#[test]
fn url_with_nested_path() {
    assert_eq!(
        build_url("h", "1", "rpc/select_time_points_and_summaries", ""),
        "http://h:1/rpc/select_time_points_and_summaries"
    );
}

#[test]
fn no_body_route_takes_get_and_delete() {
    assert_eq!(route_method(Route::NoBody, "GET"), Some(UpstreamMethod::Get));
    assert_eq!(route_method(Route::NoBody, "DELETE"), Some(UpstreamMethod::Delete));
    assert_eq!(route_method(Route::NoBody, "POST"), None);
    assert_eq!(route_method(Route::NoBody, "PATCH"), None);
}

#[test]
fn body_route_takes_post_and_patch() {
    assert_eq!(route_method(Route::WithBody, "POST"), Some(UpstreamMethod::Post));
    assert_eq!(route_method(Route::WithBody, "PATCH"), Some(UpstreamMethod::Patch));
    assert_eq!(route_method(Route::WithBody, "GET"), None);
    assert_eq!(route_method(Route::WithBody, "DELETE"), None);
}

#[test]
fn method_names_are_case_sensitive() {
    assert_eq!(route_method(Route::NoBody, "get"), None);
    assert_eq!(route_method(Route::WithBody, "Post"), None);
    assert_eq!(route_method(Route::NoBody, "PUT"), None);
    assert_eq!(route_method(Route::NoBody, ""), None);
}

#[test]
fn forwards_authorization_then_prefer() {
    let hs = vec![
        header("accept", "*/*"),
        header("prefer", "return=representation"),
        header("authorization", "Bearer a"),
        header("content-type", "application/json"),
    ];
    let out = include_headers(&hs);
    assert_eq!(
        pairs(&out),
        vec![
            ("Authorization".to_string(), b"Bearer a".to_vec()),
            ("Prefer".to_string(), b"return=representation".to_vec()),
        ]
    );
}

#[test]
fn forwards_first_occurrence_of_a_repeated_header() {
    let hs = vec![
        header("AUTHORIZATION", "Bearer first"),
        header("authorization", "Bearer second"),
    ];
    let out = include_headers(&hs);
    assert_eq!(pairs(&out), vec![("Authorization".to_string(), b"Bearer first".to_vec())]);
}

#[test]
fn forwards_nothing_without_those_headers() {
    let hs = vec![header("accept", "*/*"), header("cookie", "x=1")];
    assert!(include_headers(&hs).is_empty());
    assert!(include_headers(&Vec::new()).is_empty());
}

#[test]
fn forwards_prefer_alone() {
    let hs = vec![header("Prefer", "count=exact")];
    let out = include_headers(&hs);
    assert_eq!(pairs(&out), vec![("Prefer".to_string(), b"count=exact".to_vec())]);
}

#[test]
fn header_lookup_ignores_ascii_case() {
    let hs = vec![header("X-Thing", "1"), header("prefer", "a")];
    assert_eq!(find_header(&hs, "x-thing"), Some(b"1".to_vec()));
    assert_eq!(find_header(&hs, "PREFER"), Some(b"a".to_vec()));
    assert_eq!(find_header(&hs, "prefers"), None);
}

#[test]
fn plans_upstream_request() {
    let hs = vec![header("authorization", "Bearer t"), header("prefer", "return=minimal")];
    let req = match plan_upstream(Route::WithBody, "PATCH", "db", "3000", "time_points", "id=eq.4", &hs) {
        ProxyPlan::Forward(req) => req,
        ProxyPlan::Blocked => panic!("blocked"),
    };
    assert_eq!(req.method, UpstreamMethod::Patch);
    assert_eq!(req.url, "http://db:3000/time_points?id=eq.4");
    assert_eq!(
        pairs(&req.headers),
        vec![
            ("Authorization".to_string(), b"Bearer t".to_vec()),
            ("Prefer".to_string(), b"return=minimal".to_vec()),
        ]
    );
}

#[test]
fn blocks_whole_sessions_table() {
    let hs = vec![header("authorization", "Bearer t")];
    assert!(matches!(plan_upstream(Route::NoBody, "GET", "db", "3000", "sessions", "", &hs), ProxyPlan::Blocked));
    assert!(matches!(plan_upstream(Route::NoBody, "DELETE", "db", "3000", "sessions", "", &hs), ProxyPlan::Blocked));
}

#[test]
fn forwards_filtered_or_other_session_requests() {
    let hs = vec![header("authorization", "Bearer t")];
    match plan_upstream(Route::NoBody, "DELETE", "db", "3000", "sessions", "id=eq.1", &hs) {
        ProxyPlan::Forward(req) => assert_eq!(req.url, "http://db:3000/sessions?id=eq.1"),
        ProxyPlan::Blocked => panic!("blocked"),
    }
    assert!(matches!(plan_upstream(Route::WithBody, "POST", "db", "3000", "sessions", "", &hs), ProxyPlan::Forward(_)));
    assert!(matches!(plan_upstream(Route::NoBody, "GET", "db", "3000", "timelines", "", &hs), ProxyPlan::Forward(_)));
}

#[test]
fn whole_sessions_request_detection() {
    assert!(is_whole_sessions_request(Route::NoBody, "sessions", ""));
    assert!(!is_whole_sessions_request(Route::NoBody, "sessions", "a=1"));
    assert!(!is_whole_sessions_request(Route::NoBody, "session", ""));
    assert!(!is_whole_sessions_request(Route::WithBody, "sessions", ""));
}

#[test]
fn parses_port_numbers() {
    assert_eq!(parse_port("8080"), Some(8080));
    assert_eq!(parse_port("0"), Some(0));
    assert_eq!(parse_port("65535"), Some(65535));
    assert_eq!(parse_port("+80"), Some(80));
    assert_eq!(parse_port("0080"), Some(80));
}

#[test]
fn rejects_non_ports() {
    assert_eq!(parse_port(""), None);
    assert_eq!(parse_port("+"), None);
    assert_eq!(parse_port("-1"), None);
    assert_eq!(parse_port("65536"), None);
    assert_eq!(parse_port("99999999999"), None);
    assert_eq!(parse_port("80a"), None);
    assert_eq!(parse_port(" 80"), None);
    assert_eq!(parse_port("++1"), None);
    assert_eq!(parse_port("\u{663}"), None);
}

#[test]
fn port_parse_agrees_with_std() {
    for text in ["", "+", "-", "-0", "+0", "12", "065535", "65536", "7x", "00000000000001"] {
        assert_eq!(parse_port(text), text.parse::<u16>().ok(), "text {:?}", text);
    }
}

#[test]
fn every_port_reads_back_from_its_decimal_text() {
    for port in 0..=u16::MAX {
        assert_eq!(parse_port(&port.to_string()), Some(port));
    }
}

#[test]
fn listen_address_is_all_interfaces() {
    let a = filter_listen_address("8000").unwrap();
    assert_eq!(a.host, "0.0.0.0");
    assert_eq!(a.port, 8000);
    assert!(filter_listen_address("eight").is_none());
}

#[test]
fn prune_url_embeds_cutoff() {
    assert_eq!(
        prune_url("db", "3000", "2023-11-14 22:13:20 UTC"),
        "http://db:3000/sessions?last_interaction=lt.2023-11-14 22:13:20 UTC"
    );
}

#[test]
fn prune_plan_cuts_off_ten_minutes_before_now() {
    assert_eq!(
        plan_prune("db", "3000", 1_700_000_600),
        Some("http://db:3000/sessions?last_interaction=lt.2023-11-14 22:13:20 UTC".to_string())
    );
    assert_eq!(
        plan_prune("h", "1", 600),
        Some("http://h:1/sessions?last_interaction=lt.1970-01-01 00:00:00 UTC".to_string())
    );
}

#[test]
fn prune_plan_out_of_range() {
    assert_eq!(plan_prune("db", "3000", i64::MIN), None);
    assert_eq!(plan_prune("db", "3000", i64::MAX), None);
}

#[test]
fn success_is_any_2xx_status() {
    assert!(is_success_status(200));
    assert!(is_success_status(204));
    assert!(is_success_status(299));
    assert!(!is_success_status(199));
    assert!(!is_success_status(300));
    assert!(!is_success_status(404));
}

#[test]
fn prune_outcomes() {
    assert_eq!(prune_outcome(Some(200)), PruneOutcome::Pruned);
    assert_eq!(prune_outcome(Some(401)), PruneOutcome::Failed);
    assert_eq!(prune_outcome(None), PruneOutcome::Failed);
}

#[test]
fn prune_runs_every_two_minutes() {
    assert_eq!(prune_interval_millis(), 120_000);
}

#[test]
fn text_helpers() {
    assert!(str_equal("abc", "abc"));
    assert!(!str_equal("abc", "abd"));
    assert!(!str_equal("abc", "ab"));
    assert!(str_eq_ignore_ascii_case("Prefer", "pREFER"));
    assert!(!str_eq_ignore_ascii_case("É", "é"));
    assert_eq!(lower_ascii_char('Q'), 'q');
    assert_eq!(lower_ascii_char('q'), 'q');
    assert_eq!(lower_ascii_char('['), '[');
}
