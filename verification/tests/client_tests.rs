use epazote::client::{build_client, ClientError, APP_USER_AGENT};
use epazote::config::{Expect, HttpMethod, ServiceDetails};

fn service(headers: Option<Vec<(String, String)>>) -> ServiceDetails {
    ServiceDetails {
        every: 30,
        expect: Expect { status: 200, header: None, body: None, if_not: None },
        follow_redirects: None,
        headers,
        max_bytes: None,
        test: None,
        timeout: 5,
        url: Some("https://mock".to_string()),
        method: HttpMethod::Get,
        body: None,
    }
}

#[test]
fn test_build_client_multiple_services() {
    // One service with a custom header and redirects left unset, one with
    // redirects asked for.
    let mut first = service(Some(vec![(
        "X-Custom-Header".to_string(),
        "TestValue".to_string(),
    )]));
    first.follow_redirects = None;

    let mut second = service(Some(vec![("User-Agent".to_string(), "TestAgent".to_string())]));
    second.follow_redirects = Some(true);

    let expected = vec![("test", &first, false), ("test2", &second, true)];

    for (service_name, details, expected_redirect) in expected {
        let client_config = build_client(details).unwrap();

        // Check timeout
        assert_eq!(client_config.timeout, 5);

        // Check user agent
        assert_eq!(client_config.user_agent, APP_USER_AGENT);

        // Check redirect policy
        assert_eq!(
            client_config.follow_redirects, expected_redirect,
            "Follow redirects mismatch for service {}",
            service_name
        );

        assert_eq!(client_config.headers, details.headers.clone().unwrap());
    }
}

#[test]
fn test_build_client_redirects_default_off() {
    // Unset and explicitly false both leave redirects off: a redirect
    // response is an observable probe outcome.
    let mut details = service(None);
    assert!(!build_client(&details).unwrap().follow_redirects);

    details.follow_redirects = Some(false);
    assert!(!build_client(&details).unwrap().follow_redirects);

    details.follow_redirects = Some(true);
    assert!(build_client(&details).unwrap().follow_redirects);
}

#[test]
fn test_build_client_no_headers() {
    let details = service(None);
    let client_config = build_client(&details).unwrap();
    assert!(client_config.headers.is_empty());
}

#[test]
fn test_build_client_invalid_header_name() {
    let details = service(Some(vec![("X Custom".to_string(), "v".to_string())]));
    assert_eq!(build_client(&details).unwrap_err(), ClientError::InvalidHeaderName);

    let details = service(Some(vec![("".to_string(), "v".to_string())]));
    assert_eq!(build_client(&details).unwrap_err(), ClientError::InvalidHeaderName);
}

#[test]
fn test_build_client_invalid_header_value() {
    let details = service(Some(vec![("X-Custom".to_string(), "a\nb".to_string())]));
    assert_eq!(build_client(&details).unwrap_err(), ClientError::InvalidHeaderValue);
}
