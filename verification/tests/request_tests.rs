use epazote::config::{Action, BodyType, Expect, HttpMethod, ServiceDetails};
use epazote::fallback::AttemptCounters;
use epazote::metrics::ServiceMetrics;
use epazote::request::{build_http_request, handle_http_response, BodyOutcome, RequestError};

fn service(url: Option<&str>) -> ServiceDetails {
    ServiceDetails {
        every: 30,
        expect: Expect { status: 200, header: None, body: None, if_not: None },
        follow_redirects: None,
        headers: None,
        max_bytes: None,
        test: None,
        timeout: 5,
        url: url.map(|s| s.to_string()),
        method: HttpMethod::Get,
        body: None,
    }
}

#[test]
fn test_build_http_request_json() {
    let mut details = service(Some("http://localhost:9/test"));
    details.method = HttpMethod::Post;
    details.body = Some(BodyType::Json(r#"{"key":"value","oi":"hola"}"#.to_string()));
    details.headers = Some(vec![("X-Custom-Header".to_string(), "TestValue".to_string())]);

    let plan = build_http_request(&details).unwrap();
    assert_eq!(plan.method, HttpMethod::Post);
    assert_eq!(plan.url, "http://localhost:9/test");
    assert_eq!(plan.content_type.as_deref(), Some("application/json"));
    assert_eq!(plan.body.as_deref(), Some(r#"{"key":"value","oi":"hola"}"#));
}

#[test]
fn test_build_http_request_json_keeps_declared_content_type() {
    // A declared content type is never overridden by the body's implied one.
    let mut details = service(Some("http://localhost:9/test"));
    details.method = HttpMethod::Post;
    details.body = Some(BodyType::Json("{}".to_string()));
    details.headers = Some(vec![
        ("X-Custom-Header".to_string(), "TestValue".to_string()),
        ("Content-Type".to_string(), "application/vnd.api+json".to_string()),
    ]);

    let plan = build_http_request(&details).unwrap();
    assert!(plan.content_type.is_none());
}

#[test]
fn test_build_http_request_form() {
    let mut details = service(Some("http://localhost:9/test"));
    details.method = HttpMethod::Post;
    details.body = Some(BodyType::Form(vec![
        ("key".to_string(), "value".to_string()),
        ("oi".to_string(), "hola".to_string()),
    ]));

    let plan = build_http_request(&details).unwrap();
    assert_eq!(plan.content_type.as_deref(), Some("application/x-www-form-urlencoded"));
    assert_eq!(plan.body.as_deref(), Some("key=value&oi=hola"));
}

#[test]
fn test_build_http_request_text() {
    // A text body never forces a content type of its own.
    let mut details = service(Some("http://localhost:9/test"));
    details.method = HttpMethod::Post;
    details.body = Some(BodyType::Text("Hello, world!".to_string()));
    details.headers = Some(vec![("content-type".to_string(), "text/plain".to_string())]);

    let plan = build_http_request(&details).unwrap();
    assert!(plan.content_type.is_none());
    assert_eq!(plan.body.as_deref(), Some("Hello, world!"));
}

#[test]
fn test_build_http_request_no_url() {
    let details = service(None);
    assert_eq!(build_http_request(&details).unwrap_err(), RequestError::NoUrl);
}

#[test]
fn test_handle_http_response() {
    let details = service(Some("http://localhost:9/health"));
    let mut metrics = ServiceMetrics::new();
    let mut counters = AttemptCounters::new();

    let rs = handle_http_response(
        "test",
        &details,
        200,
        &BodyOutcome::NotRead,
        &mut metrics,
        &mut counters,
    );

    assert!(rs.is_ok());
}

#[test]
fn test_status_match_sets_gauge() {
    // A 200 against an expected 200 with no body pattern is a positive
    // verdict and sets the gauge to 1; a 500 is negative and sets it to 0.
    let details = service(Some("http://localhost:9/health"));
    let mut metrics = ServiceMetrics::new();
    let mut counters = AttemptCounters::new();

    let (verdict, _) = handle_http_response(
        "test",
        &details,
        200,
        &BodyOutcome::NotRead,
        &mut metrics,
        &mut counters,
    )
    .unwrap();
    assert!(verdict);
    assert_eq!(metrics.get("test").unwrap().status, Some(1));

    let (verdict, _) = handle_http_response(
        "test",
        &details,
        500,
        &BodyOutcome::NotRead,
        &mut metrics,
        &mut counters,
    )
    .unwrap();
    assert!(!verdict);
    assert_eq!(metrics.get("test").unwrap().status, Some(0));
}

#[test]
fn test_metrics() {
    let details = service(Some("http://localhost:9/test"));
    let mut metrics = ServiceMetrics::new();
    let mut counters = AttemptCounters::new();

    // Fetch initial values
    let initial_status = metrics.get("test").and_then(|s| s.status);
    let initial_failures = metrics.get("test").map(|s| s.failures_total).unwrap_or(0);

    let rs = handle_http_response(
        "test",
        &details,
        200,
        &BodyOutcome::NotRead,
        &mut metrics,
        &mut counters,
    );

    assert!(rs.is_ok());

    let updated_status = metrics.get("test").unwrap().status;
    let updated_failures = metrics.get("test").unwrap().failures_total;

    assert_ne!(
        initial_status, updated_status,
        "Service status should change after a successful request"
    );
    assert_eq!(
        updated_status,
        Some(1),
        "Service status should be 1 after a successful request"
    );
    assert_eq!(
        updated_failures, initial_failures,
        "Failures should not increase after a successful request"
    );

    let rs = handle_http_response(
        "test",
        &details,
        500,
        &BodyOutcome::NotRead,
        &mut metrics,
        &mut counters,
    )
    .unwrap();
    assert!(!rs.0);

    assert_eq!(
        metrics.get("test").unwrap().status,
        Some(0),
        "Service status should be 0 after a failed request"
    );
}

#[test]
fn test_handle_http_response_expect_body() {
    let mut details = service(Some("http://localhost:9/test"));
    details.expect.body = Some("sopas".to_string());
    let mut metrics = ServiceMetrics::new();
    let mut counters = AttemptCounters::new();

    let rs = handle_http_response(
        "test",
        &details,
        200,
        &BodyOutcome::Text("world-sopas-hello".to_string()),
        &mut metrics,
        &mut counters,
    )
    .unwrap();

    assert!(rs.0);
}

#[test]
fn test_handle_http_response_expect_body_regex_stop() {
    let mut details = service(Some("http://localhost:9/test"));
    details.expect.body = Some(r#"r"\b(?:sopas|cit-02)\b""#.to_string());
    details.expect.if_not = Some(Action { cmd: None, http: None, stop: Some(2) });

    let mut counters = AttemptCounters::new();

    let mut metrics = ServiceMetrics::new();
    let rs1 = handle_http_response(
        "test-stop",
        &details,
        200,
        &BodyOutcome::Text("---".to_string()),
        &mut metrics,
        &mut counters,
    )
    .unwrap();

    assert!(!rs1.0);
    assert_eq!(counters.get("test-stop"), 1, "Counter should be 1 after first attempt");

    let mut metrics = ServiceMetrics::new();
    let rs2 = handle_http_response(
        "test-stop",
        &details,
        200,
        &BodyOutcome::Text("---".to_string()),
        &mut metrics,
        &mut counters,
    )
    .unwrap();

    assert!(!rs2.0);
    assert_eq!(counters.get("test-stop"), 2, "Counter should be 1 after first attempt");
}

#[test]
fn test_handle_http_response_expect_if_not_http() {
    let mut details = service(Some("http://localhost:9/test"));
    details.expect.body = Some("http".to_string());
    details.expect.if_not = Some(Action {
        cmd: None,
        http: Some("http://localhost:9/notify?milei=libra".to_string()),
        stop: Some(2),
    });

    let mut counters = AttemptCounters::new();

    let mut metrics = ServiceMetrics::new();
    let rs1 = handle_http_response(
        "test-stop",
        &details,
        200,
        &BodyOutcome::Text("---milei---".to_string()),
        &mut metrics,
        &mut counters,
    )
    .unwrap();

    assert!(!rs1.0);
    assert_eq!(rs1.1.http.as_deref(), Some("http://localhost:9/notify?milei=libra"));
    assert_eq!(counters.get("test-stop"), 1, "Counter should be 1 after first attempt");

    let mut metrics = ServiceMetrics::new();
    let rs2 = handle_http_response(
        "test-stop",
        &details,
        200,
        &BodyOutcome::Text("---milei---".to_string()),
        &mut metrics,
        &mut counters,
    )
    .unwrap();

    assert!(!rs2.0);
    assert_eq!(counters.get("test-stop"), 2, "Counter should be 1 after first attempt");
}

#[test]
fn test_body_read_failure_is_no_match() {
    // A body-read error degrades to a negative verdict, not an error.
    let mut details = service(Some("http://localhost:9/test"));
    details.expect.body = Some("sopas".to_string());
    let mut metrics = ServiceMetrics::new();
    let mut counters = AttemptCounters::new();

    let rs = handle_http_response(
        "test",
        &details,
        200,
        &BodyOutcome::ReadFailed,
        &mut metrics,
        &mut counters,
    )
    .unwrap();

    assert!(!rs.0);
    assert_eq!(metrics.get("test").unwrap().status, Some(0));
}

#[test]
fn test_empty_body_pattern_is_reported_not_recorded() {
    // An empty configured pattern is a configuration error: no verdict, no
    // gauge update, no fallback.
    let mut details = service(Some("http://localhost:9/test"));
    details.expect.body = Some("   ".to_string());
    details.expect.if_not = Some(Action { cmd: Some("echo x".to_string()), http: None, stop: None });
    let mut metrics = ServiceMetrics::new();
    let mut counters = AttemptCounters::new();

    let rs = handle_http_response(
        "test",
        &details,
        200,
        &BodyOutcome::Text("body".to_string()),
        &mut metrics,
        &mut counters,
    );

    assert!(rs.is_err());
    assert!(metrics.get("test").is_none());
    assert_eq!(counters.get("test"), 0);
}
