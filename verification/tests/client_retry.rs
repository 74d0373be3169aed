use sonic::client::{classify_response, parse_retry_after, retry_decision, run_attempts, RetryStep, WireOutcome};
use sonic::errors::{FeedbackCategory, SpotifyError};
use sonic::retry::{is_retryable_error, RetryConfig};

fn reply(status: u16, retry_after: Option<&str>, body: &str) -> WireOutcome {
    WireOutcome::Reply {
        status,
        retry_after: retry_after.map(|s| s.to_string()),
        body: body.to_string(),
    }
}

#[test]
fn test_classify_success_and_errors() {
    assert_eq!(
        classify_response(&reply(200, None, "{\"ok\":true}")),
        Ok("{\"ok\":true}".to_string())
    );
    assert_eq!(classify_response(&reply(201, None, "x")), Ok("x".to_string()));
    assert_eq!(classify_response(&reply(401, None, "")), Err(SpotifyError::TokenExpired));
    assert!(matches!(
        classify_response(&reply(404, None, "no such track here")),
        Err(SpotifyError::TrackNotFound { .. })
    ));
    assert!(matches!(
        classify_response(&reply(404, None, "playlist missing")),
        Err(SpotifyError::PlaylistNotFound { .. })
    ));
    assert!(matches!(
        classify_response(&reply(404, None, "")),
        Err(SpotifyError::ApiRequestFailed { status: 404, .. })
    ));
    assert!(matches!(
        classify_response(&reply(403, None, "playlist is private")),
        Err(SpotifyError::PlaylistAccessDenied { .. })
    ));
    assert!(matches!(
        classify_response(&reply(403, None, "nope")),
        Err(SpotifyError::ApiRequestFailed { status: 403, .. })
    ));
    assert!(matches!(
        classify_response(&reply(500, None, "server error")),
        Err(SpotifyError::ApiRequestFailed { status: 500, .. })
    ));
    assert!(matches!(
        classify_response(&WireOutcome::Transport { message: "reset".to_string() }),
        Err(SpotifyError::NetworkError(_))
    ));
}

#[test]
fn test_classify_rate_limit_header() {
    assert_eq!(
        classify_response(&reply(429, Some("2"), "")),
        Err(SpotifyError::RateLimitExceeded { retry_after_ms: 2000 })
    );
    assert_eq!(
        classify_response(&reply(429, None, "")),
        Err(SpotifyError::RateLimitExceeded { retry_after_ms: 1000 })
    );
    assert_eq!(
        classify_response(&reply(429, Some("not a number"), "")),
        Err(SpotifyError::RateLimitExceeded { retry_after_ms: 1000 })
    );
}

#[test]
fn test_parse_retry_after_values() {
    assert_eq!(parse_retry_after(&Some("7".to_string())), 7000);
    assert_eq!(parse_retry_after(&Some("".to_string())), 1000);
    assert_eq!(parse_retry_after(&None), 1000);
}

#[test]
fn test_rate_limited_sleeps_server_delay() {
    let policy = RetryConfig::from_bot_config(3, 1000, 30000);
    let outcomes = vec![
        reply(429, Some("2"), ""),
        reply(200, None, "done"),
        reply(200, None, "unused"),
    ];
    let trace = run_attempts(&outcomes, &policy);
    assert_eq!(trace.attempts, 2);
    assert_eq!(trace.steps.len(), 1);
    assert_eq!(trace.steps[0], RetryStep::SleepThenRetry(2000));
    assert_eq!(trace.result, Ok("done".to_string()));
}

#[test]
fn test_unauthorized_triggers_refresh_then_retry() {
    let policy = RetryConfig::from_bot_config(3, 1000, 30000);
    let outcomes = vec![
        reply(401, None, ""),
        reply(200, None, "fresh"),
        reply(200, None, "unused"),
    ];
    let trace = run_attempts(&outcomes, &policy);
    assert_eq!(trace.attempts, 2);
    assert_eq!(trace.steps.len(), 1);
    assert_eq!(trace.steps[0], RetryStep::RefreshThenRetry);
    assert_eq!(trace.result, Ok("fresh".to_string()));
}

#[test]
fn test_server_errors_exhaust_attempts() {
    let policy = RetryConfig::from_bot_config(3, 1000, 30000);
    let outcomes = vec![
        reply(500, None, "server error"),
        reply(500, None, "server error"),
        reply(500, None, "server error"),
    ];
    let trace = run_attempts(&outcomes, &policy);
    assert_eq!(trace.attempts, 3);
    assert_eq!(trace.steps.len(), 2);
    for step in &trace.steps {
        match step {
            RetryStep::SleepThenRetry(d) => assert!(*d >= 100),
            other => panic!("expected a backoff sleep, got {:?}", other),
        }
    }
    assert!(matches!(
        trace.result,
        Err(SpotifyError::ApiRequestFailed { status: 500, .. })
    ));
}

#[test]
fn test_non_retryable_stops_at_once() {
    let policy = RetryConfig::from_bot_config(3, 1000, 30000);
    let outcomes = vec![
        reply(403, None, "nope"),
        reply(200, None, "unused"),
        reply(200, None, "unused"),
    ];
    let trace = run_attempts(&outcomes, &policy);
    assert_eq!(trace.attempts, 1);
    assert!(trace.steps.is_empty());
    assert!(matches!(
        trace.result,
        Err(SpotifyError::ApiRequestFailed { status: 403, .. })
    ));
}

#[test]
fn test_backoff_delay_within_jitter_bounds() {
    let policy = RetryConfig::from_bot_config(5, 1000, 30000);
    let expected_capped: [u64; 5] = [1000, 2000, 4000, 8000, 16000];
    for attempt in 1..=5u32 {
        let capped = expected_capped[(attempt - 1) as usize];
        for _ in 0..20 {
            let d = policy.calculate_delay(attempt);
            assert!(d >= 100);
            assert!(d >= capped - capped / 4, "delay {} below jitter floor for {}", d, capped);
            assert!(d <= capped + capped / 4, "delay {} above jitter cap for {}", d, capped);
        }
    }
}

#[test]
fn test_backoff_delay_caps_at_max() {
    let policy = RetryConfig::from_bot_config(10, 1000, 4000);
    for _ in 0..20 {
        let d = policy.calculate_delay(9);
        assert!(d >= 3000);
        assert!(d <= 5000);
    }
}

#[test]
fn test_retry_decision_gives_up_when_exhausted() {
    let policy = RetryConfig::from_bot_config(3, 1000, 30000);
    let err = SpotifyError::RateLimitExceeded { retry_after_ms: 500 };
    assert_eq!(retry_decision(&err, 3, &policy), RetryStep::GiveUp);
    assert_eq!(retry_decision(&err, 1, &policy), RetryStep::SleepThenRetry(500));
    let hard = SpotifyError::PlaylistNotFound { playlist_id: "p".to_string() };
    assert_eq!(retry_decision(&hard, 1, &policy), RetryStep::GiveUp);
}

#[test]
fn test_is_retryable_error_text() {
    assert!(is_retryable_error("Connection TIMEOUT while reading"));
    assert!(is_retryable_error("HTTP 503 Service Unavailable"));
    assert!(is_retryable_error("Rate Limit exceeded"));
    assert!(!is_retryable_error("invalid credentials"));
}

#[test]
fn test_error_categories() {
    assert_eq!(
        SpotifyError::NetworkError("x".to_string()).category(),
        FeedbackCategory::Network
    );
    assert_eq!(SpotifyError::TokenExpired.category(), FeedbackCategory::Authentication);
    assert_eq!(
        SpotifyError::RateLimitExceeded { retry_after_ms: 1 }.category(),
        FeedbackCategory::RateLimited
    );
    assert_eq!(
        SpotifyError::TrackNotFound { track_id: "t".to_string() }.category(),
        FeedbackCategory::NotFound
    );
    assert_eq!(
        SpotifyError::InvalidTrackUri { uri: "u".to_string() }.category(),
        FeedbackCategory::Duplicate
    );
    assert_eq!(
        SpotifyError::PlaylistAccessDenied { playlist_id: "p".to_string() }.category(),
        FeedbackCategory::Permission
    );
}
