use apify_client::backoff::backoff_delay_ms;
use apify_client::config::{RetryConfig, RetryState};
use apify_client::error::{ApifyClientError, FailureClass};
use apify_client::executor::{check_budgets, execute_transcript};
use apify_client::request::{HttpMethod, HttpResponse, Request, TransportEvent, TransportFailure};

fn plain_request(method: HttpMethod) -> Request {
    Request {
        url: "https://api.apify.com/v2/key-value-stores/abc/records/k".to_string(),
        method,
        body: Vec::new(),
        headers: Vec::new(),
    }
}

fn response_event(status: u16, body: &[u8]) -> TransportEvent {
    TransportEvent::Response(HttpResponse { status, body: body.to_vec() })
}

#[test]
fn backoff_doubles_from_the_base_delay() {
    assert_eq!(backoff_delay_ms(500, 1), 1000);
    assert_eq!(backoff_delay_ms(500, 2), 2000);
    assert_eq!(backoff_delay_ms(500, 8), 128000);
    assert_eq!(backoff_delay_ms(1, 1), 2);
    assert_eq!(backoff_delay_ms(0, 5), 0);
    assert_eq!(backoff_delay_ms(u32::MAX, 32), (u32::MAX as u64) << 32);
}

#[test]
fn backoff_is_monotonic_in_the_attempt_count() {
    let mut previous = 0u64;
    for attempt in 1..=8u8 {
        let delay = backoff_delay_ms(500, attempt);
        assert!(delay > previous);
        previous = delay;
    }
}

#[test]
fn default_config_matches_the_stated_defaults() {
    let cfg = RetryConfig::default();
    assert_eq!(cfg.max_rate_limit_retries, 8);
    assert_eq!(cfg.max_server_fail_retries, 8);
    assert_eq!(cfg.max_timeout_retries, 5);
    assert_eq!(cfg.base_retry_delay_ms, 500);
}

#[test]
fn rate_limited_forever_exhausts_the_rate_limit_budget() {
    let cfg = RetryConfig::default();
    let events: Vec<TransportEvent> = (0..8).map(|_| response_event(429, b"")).collect();
    let report = execute_transcript(&plain_request(HttpMethod::Get), &cfg, events);
    assert!(matches!(
        report.result,
        Some(Err(ApifyClientError::MaxRetriesReached(FailureClass::RateLimit, 8)))
    ));
    assert_eq!(report.attempts, 8);
    // The 8th rate-limited attempt exhausts the budget: the error follows it
    // at once, so only 7 delays are slept.
    assert_eq!(report.delays, vec![1000, 2000, 4000, 8000, 16000, 32000, 64000]);
}

#[test]
fn server_failures_forever_exhaust_the_server_failure_budget() {
    let cfg = RetryConfig::default();
    for status in [500u16, 503, 599] {
        let events: Vec<TransportEvent> = (0..8).map(|_| response_event(status, b"")).collect();
        let report = execute_transcript(&plain_request(HttpMethod::Get), &cfg, events);
        assert!(matches!(
            report.result,
            Some(Err(ApifyClientError::MaxRetriesReached(FailureClass::ServerFailure, 8)))
        ));
        assert_eq!(report.attempts, 8);
        assert_eq!(report.delays.len(), 7);
    }
}

#[test]
fn interleaved_classes_keep_independent_counters() {
    // Alternating 429 and 503: the two counters grow separately, the
    // rate-limit budget fills first (its 8th failure is event 15), and the
    // rate-limit error wins by the fixed check order.
    let cfg = RetryConfig::default();
    let events: Vec<TransportEvent> = (0..16)
        .map(|i| {
            if i % 2 == 0 {
                response_event(429, b"")
            } else {
                response_event(503, b"")
            }
        })
        .collect();
    let report = execute_transcript(&plain_request(HttpMethod::Get), &cfg, events);
    assert!(matches!(
        report.result,
        Some(Err(ApifyClientError::MaxRetriesReached(FailureClass::RateLimit, 8)))
    ));
    assert_eq!(report.attempts, 15);
    // 14 delays: every failure is slept for except the 8th rate limit, which
    // exhausts its budget.
    assert_eq!(report.delays.len(), 14);
}

#[test]
fn timeouts_forever_exhaust_the_timeout_budget() {
    let cfg = RetryConfig::default();
    let events: Vec<TransportEvent> = (0..5)
        .map(|_| TransportEvent::Failure(TransportFailure::Timeout))
        .collect();
    let report = execute_transcript(&plain_request(HttpMethod::Get), &cfg, events);
    assert!(matches!(
        report.result,
        Some(Err(ApifyClientError::MaxRetriesReached(FailureClass::Timeout, 5)))
    ));
    assert_eq!(report.attempts, 5);
    // The 5th timeout exhausts the budget: no sleep follows it.
    assert_eq!(report.delays, vec![1000, 2000, 4000, 8000]);
}

#[test]
fn not_found_is_terminal_with_zero_retries() {
    let cfg = RetryConfig::default();
    let body = br#"{"error":{"type":"record-not-found","message":"x"}}"#;
    let events = vec![response_event(404, body)];
    let report = execute_transcript(&plain_request(HttpMethod::Get), &cfg, events);
    assert!(matches!(
        report.result,
        Some(Err(ApifyClientError::NotFound(m))) if m == "x"
    ));
    assert_eq!(report.attempts, 1);
    assert!(report.delays.is_empty());
}

#[test]
fn payload_without_the_envelope_is_tolerated() {
    let cfg = RetryConfig::default();
    let body = br#"{"type":"record-not-found","message":"gone"}"#;
    let events = vec![response_event(404, body)];
    let report = execute_transcript(&plain_request(HttpMethod::Get), &cfg, events);
    assert!(matches!(
        report.result,
        Some(Err(ApifyClientError::NotFound(m))) if m == "gone"
    ));
}

#[test]
fn success_after_two_rate_limits_returns_the_response() {
    let cfg = RetryConfig::default();
    let events = vec![
        response_event(429, b""),
        response_event(429, b""),
        response_event(200, b"ok"),
    ];
    let report = execute_transcript(&plain_request(HttpMethod::Get), &cfg, events);
    match report.result {
        Some(Ok(resp)) => {
            assert_eq!(resp.status, 200);
            assert_eq!(resp.body, b"ok".to_vec());
        }
        other => panic!("expected a successful response, got {:?}", other),
    }
    assert_eq!(report.attempts, 3);
    assert_eq!(report.delays, vec![1000, 2000]);
}

#[test]
fn unsupported_method_is_rejected_before_any_attempt() {
    let cfg = RetryConfig::default();
    let events = vec![response_event(200, b"never seen")];
    let request = plain_request(HttpMethod::Other("PATCH".to_string()));
    let report = execute_transcript(&request, &cfg, events);
    assert!(matches!(
        report.result,
        Some(Err(ApifyClientError::UnsupportedMethod))
    ));
    assert_eq!(report.attempts, 0);
    assert!(report.delays.is_empty());
}

#[test]
fn malformed_payload_is_terminal_and_not_retried() {
    let cfg = RetryConfig::default();
    for body in [&b"not json"[..], br#"{"error":{}}"#, br#"{"error":{"type":1,"message":"x"}}"#] {
        let events = vec![response_event(400, body)];
        let report = execute_transcript(&plain_request(HttpMethod::Get), &cfg, events);
        assert!(matches!(
            report.result,
            Some(Err(ApifyClientError::MalformedErrorPayload))
        ));
        assert_eq!(report.attempts, 1);
        assert!(report.delays.is_empty());
    }
}

#[test]
fn other_client_errors_carry_the_payload_kind_and_message() {
    let cfg = RetryConfig::default();
    let body = br#"{"error":{"type":"forbidden","message":"no access"}}"#;
    let events = vec![response_event(403, body)];
    let report = execute_transcript(&plain_request(HttpMethod::Get), &cfg, events);
    assert!(matches!(
        report.result,
        Some(Err(ApifyClientError::ApiError(k, m))) if k == "forbidden" && m == "no access"
    ));
    assert_eq!(report.attempts, 1);
}

#[test]
fn non_timeout_transport_failure_is_fatal() {
    let cfg = RetryConfig::default();
    let events = vec![TransportEvent::Failure(TransportFailure::Other(
        "dns lookup failed".to_string(),
    ))];
    let report = execute_transcript(&plain_request(HttpMethod::Get), &cfg, events);
    assert!(matches!(
        report.result,
        Some(Err(ApifyClientError::UnknownTransportError(d))) if d == "dns lookup failed"
    ));
    assert_eq!(report.attempts, 1);
    assert!(report.delays.is_empty());
}

#[test]
fn first_attempt_success_needs_no_retry() {
    let cfg = RetryConfig::default();
    let events = vec![response_event(204, b"")];
    let report = execute_transcript(&plain_request(HttpMethod::Delete), &cfg, events);
    assert!(matches!(report.result, Some(Ok(resp)) if resp.status == 204));
    assert_eq!(report.attempts, 1);
    assert!(report.delays.is_empty());
}

#[test]
fn exhausted_transcript_reports_no_result() {
    let cfg = RetryConfig::default();
    let report = execute_transcript(&plain_request(HttpMethod::Put), &cfg, Vec::new());
    assert!(report.result.is_none());
    assert_eq!(report.attempts, 0);
    assert!(report.delays.is_empty());
}

#[test]
fn budget_check_order_breaks_ties_toward_rate_limit() {
    let cfg = RetryConfig::default();
    let all_out = RetryState {
        rate_limit_retries: 8,
        server_fail_retries: 8,
        timeout_retries: 5,
    };
    assert!(matches!(
        check_budgets(&all_out, &cfg),
        Some(ApifyClientError::MaxRetriesReached(FailureClass::RateLimit, 8))
    ));
    let two_out = RetryState {
        rate_limit_retries: 0,
        server_fail_retries: 8,
        timeout_retries: 5,
    };
    assert!(matches!(
        check_budgets(&two_out, &cfg),
        Some(ApifyClientError::MaxRetriesReached(FailureClass::ServerFailure, 8))
    ));
    let within = RetryState {
        rate_limit_retries: 7,
        server_fail_retries: 7,
        timeout_retries: 4,
    };
    assert!(check_budgets(&within, &cfg).is_none());
}

#[test]
fn custom_config_bounds_and_base_delay_are_honored() {
    let cfg = RetryConfig {
        max_rate_limit_retries: 2,
        max_server_fail_retries: 1,
        max_timeout_retries: 1,
        base_retry_delay_ms: 100,
    };
    let events: Vec<TransportEvent> = (0..2).map(|_| response_event(429, b"")).collect();
    let report = execute_transcript(&plain_request(HttpMethod::Post), &cfg, events);
    assert!(matches!(
        report.result,
        Some(Err(ApifyClientError::MaxRetriesReached(FailureClass::RateLimit, 2)))
    ));
    assert_eq!(report.delays, vec![200]);
}
