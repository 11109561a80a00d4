use epazote::metrics::ServiceMetrics;

#[test]
fn test_registry_starts_empty() {
    let metrics = ServiceMetrics::new();
    assert_eq!(metrics.service_count(), 0);
    assert!(metrics.get("web").is_none());
    assert!(metrics.entries().is_empty());
}

#[test]
fn test_set_status_creates_entry() {
    let mut metrics = ServiceMetrics::new();
    metrics.set_status("web", true);

    let snap = metrics.get("web").unwrap();
    assert_eq!(snap.status, Some(1));
    assert_eq!(snap.failures_total, 0);
    assert_eq!(snap.response_time_count, 0);
    assert_eq!(snap.cert_expiry_seconds, None);

    metrics.set_status("web", false);
    assert_eq!(metrics.get("web").unwrap().status, Some(0));
    assert_eq!(metrics.service_count(), 1);
}

#[test]
fn test_failures_accumulate() {
    let mut metrics = ServiceMetrics::new();
    metrics.inc_failures("web");
    metrics.inc_failures("web");
    metrics.inc_failures("job");

    assert_eq!(metrics.get("web").unwrap().failures_total, 2);
    assert_eq!(metrics.get("job").unwrap().failures_total, 1);
    assert_eq!(metrics.service_count(), 2);
}

#[test]
fn test_response_times_sum() {
    let mut metrics = ServiceMetrics::new();
    metrics.observe_response_time("web", 120);
    metrics.observe_response_time("web", 80);
    metrics.observe_response_time("web", 0);

    let snap = metrics.get("web").unwrap();
    assert_eq!(snap.response_time_count, 3);
    assert_eq!(snap.response_time_sum_ms, 200);
}

#[test]
fn test_updates_keep_other_fields() {
    let mut metrics = ServiceMetrics::new();
    metrics.set_status("web", true);
    metrics.inc_failures("web");
    metrics.observe_response_time("web", 42);
    metrics.set_cert_expiry("web", 31_536_000);

    let snap = metrics.get("web").unwrap();
    assert_eq!(snap.status, Some(1));
    assert_eq!(snap.failures_total, 1);
    assert_eq!(snap.response_time_count, 1);
    assert_eq!(snap.response_time_sum_ms, 42);
    assert_eq!(snap.cert_expiry_seconds, Some(31_536_000));
}

#[test]
fn test_entries_expose_every_service() {
    let mut metrics = ServiceMetrics::new();
    metrics.set_status("a", true);
    metrics.set_status("b", false);
    metrics.inc_failures("b");

    let entries = metrics.entries();
    assert_eq!(entries.len(), 2);
    for (name, snap) in entries {
        match name.as_str() {
            "a" => assert_eq!(snap.status, Some(1)),
            "b" => {
                assert_eq!(snap.status, Some(0));
                assert_eq!(snap.failures_total, 1);
            },
            other => panic!("unexpected service {}", other),
        }
    }
}

#[test]
fn test_saturating_counters_never_wrap() {
    let mut metrics = ServiceMetrics::new();
    metrics.observe_response_time("web", u64::MAX);
    metrics.observe_response_time("web", 10);

    let snap = metrics.get("web").unwrap();
    assert_eq!(snap.response_time_count, 2);
    assert_eq!(snap.response_time_sum_ms, u64::MAX);
}
