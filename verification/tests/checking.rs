use healthcheck::check::{
    check_failure, check_response, classify_status, request_headers, request_timeout_ms,
    TooManyHeaders,
};
use healthcheck::models::{ServiceConfig, ServiceHealth};

fn config(headers: Option<Vec<(&str, &str)>>, timeout_ms: Option<u64>) -> ServiceConfig {
    ServiceConfig {
        name: "api".to_string(),
        url: "https://api.example.com/health".to_string(),
        host: "api.example.com".to_string(),
        icon: "bolt".to_string(),
        expected_status: vec![200, 204],
        offline_signals: vec![502, 503, 204],
        headers: headers.map(|pairs| {
            pairs.iter().map(|(name, value)| (name.to_string(), value.to_string())).collect()
        }),
        timeout_ms,
    }
}

#[test]
fn codes_are_classified() {
    let cfg = config(None, None);
    assert_eq!(classify_status(200, &cfg), ServiceHealth::Up);
    assert_eq!(classify_status(503, &cfg), ServiceHealth::Down);
    assert_eq!(classify_status(404, &cfg), ServiceHealth::Degraded);
    // A code in both lists is an expected one.
    assert_eq!(classify_status(204, &cfg), ServiceHealth::Up);
}

#[test]
fn an_expected_answer_has_no_error() {
    let result = check_response(200, 35, &config(None, None));
    assert_eq!(result.health, ServiceHealth::Up);
    assert_eq!(result.latency_ms, Some(35));
    assert_eq!(result.error, None);
}

#[test]
fn an_unexpected_answer_says_so() {
    let result = check_response(503, 12, &config(None, None));
    assert_eq!(result.health, ServiceHealth::Down);
    assert_eq!(result.latency_ms, Some(12));
    assert_eq!(result.error.as_deref(), Some("Unexpected status 503 from api.example.com"));
    let result = check_response(418, 12, &config(None, None));
    assert_eq!(result.health, ServiceHealth::Degraded);
    assert_eq!(result.error.as_deref(), Some("Unexpected status 418 from api.example.com"));
}

#[test]
fn no_answer_means_down() {
    let result = check_failure("connection refused".to_string());
    assert_eq!(result.health, ServiceHealth::Down);
    assert_eq!(result.latency_ms, None);
    assert_eq!(result.error.as_deref(), Some("connection refused"));
}

#[test]
fn own_timeout_comes_first() {
    assert_eq!(request_timeout_ms(&config(None, Some(250)), 5_000), 250);
    assert_eq!(request_timeout_ms(&config(None, None), 5_000), 5_000);
}

#[test]
fn without_configured_headers_none_are_set() {
    assert!(request_headers(&config(None, None)).unwrap().is_none());
    assert_eq!(request_headers(&config(Some(vec![]), None)).unwrap().unwrap().len(), 0);
}

#[test]
fn headers_that_cannot_be_sent_are_left_out() {
    let headers = request_headers(&config(
        Some(vec![
            ("X-Token", "abc def"),
            ("bad name", "x"),
            ("", "x"),
            ("X-Bad", "line\nbreak"),
            ("X-Umlaut", "grün"),
            ("X-Tab", "a\tb"),
            ("X-Delete", "\u{7f}"),
            ("X-Empty", ""),
            ("Grün", "x"),
        ]),
        None,
    ))
    .unwrap()
    .unwrap();
    assert_eq!(headers.len(), 4);
    assert_eq!(headers.get("x-token").unwrap().as_bytes(), b"abc def");
    assert_eq!(headers.get("x-umlaut").unwrap().as_bytes(), "grün".as_bytes());
    assert_eq!(headers.get("x-tab").unwrap().as_bytes(), b"a\tb");
    assert_eq!(headers.get("x-empty").unwrap().as_bytes(), b"");
    let names: Vec<&str> = headers.keys().map(|name| name.as_str()).collect();
    assert!(names.contains(&"x-token"));
}

#[test]
fn every_mark_that_a_header_name_may_hold() {
    for code in 0u8..128 {
        let name = (code as char).to_string();
        let accepted = code.is_ascii_alphanumeric() || b"!#$%&'*+-.^_`|~".contains(&code);
        let headers = request_headers(&config(Some(vec![(&name, "v")]), None)).unwrap().unwrap();
        assert_eq!(headers.len(), accepted as usize, "{:?}", name);
    }
}

#[test]
fn header_names_may_be_long_but_not_too_long() {
    let longest = "a".repeat(65_535);
    let longer = "a".repeat(65_536);
    let headers = request_headers(&config(Some(vec![(&longest, "1"), (&longer, "2")]), None))
        .unwrap()
        .unwrap();
    assert_eq!(headers.len(), 1);
    assert_eq!(headers.get(longest.as_str()).unwrap().as_bytes(), b"1");
}

#[test]
fn the_later_of_two_headers_with_one_name_stays() {
    let headers = request_headers(&config(
        Some(vec![("Accept", "text/html"), ("X-A", "1"), ("ACCEPT", "application/json")]),
        None,
    ))
    .unwrap()
    .unwrap();
    assert_eq!(headers.len(), 2);
    assert_eq!(headers.get("accept").unwrap().as_bytes(), b"application/json");
    assert_eq!(headers.get_all("accept").iter().count(), 1);
    assert_eq!(headers.get("x-a").unwrap().as_bytes(), b"1");
}

#[test]
fn as_many_headers_as_are_allowed() {
    let names: Vec<String> = (0..6_554).map(|i| format!("x-{}", i)).collect();
    let pairs = names.iter().map(|name| (name.as_str(), "v")).collect();
    let headers = request_headers(&config(Some(pairs), None)).unwrap().unwrap();
    assert_eq!(headers.len(), 6_554);
}

#[test]
fn more_headers_than_a_request_can_carry() {
    let names: Vec<String> = (0..40_000).map(|i| format!("x-{}", i)).collect();
    let pairs = names.iter().map(|name| (name.as_str(), "v")).collect();
    assert!(matches!(request_headers(&config(Some(pairs), None)), Err(TooManyHeaders)));
    // Only those that are sent count, each name once.
    let pairs = names.iter().map(|_| ("X-Same", "v")).chain([("bad name", "v")]).collect();
    assert_eq!(request_headers(&config(Some(pairs), None)).unwrap().unwrap().len(), 1);
}
