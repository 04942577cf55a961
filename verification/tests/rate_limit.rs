use remote_build::error::ErrorCode;
use remote_build::rate_limit::{verify_rate_limit, RateLimiter, REQUEST_LIMIT, WINDOW_NANOS};

const SECOND: u64 = 1_000_000_000;

#[test]
fn ten_requests_per_minute_are_admitted() {
    let mut limiter = RateLimiter::new();
    for i in 0..10u64 {
        assert!(limiter.check_rate_limit_at("1.2.3.4".to_string(), i * SECOND));
    }
    assert!(!limiter.check_rate_limit_at("1.2.3.4".to_string(), 10 * SECOND));
    assert!(!limiter.check_rate_limit_at("1.2.3.4".to_string(), 59 * SECOND));
}

#[test]
fn the_window_slides() {
    let mut limiter = RateLimiter::new();
    for _ in 0..REQUEST_LIMIT {
        assert!(limiter.check_rate_limit_at("a".to_string(), 0));
    }
    assert!(!limiter.check_rate_limit_at("a".to_string(), WINDOW_NANOS - 1));
    assert!(limiter.check_rate_limit_at("a".to_string(), WINDOW_NANOS));
}

#[test]
fn refused_requests_do_not_count() {
    let mut limiter = RateLimiter::new();
    for i in 0..10u64 {
        assert!(limiter.check_rate_limit_at("c".to_string(), i));
    }
    for _ in 0..100 {
        assert!(!limiter.check_rate_limit_at("c".to_string(), 30 * SECOND));
    }
    assert!(limiter.check_rate_limit_at("c".to_string(), WINDOW_NANOS + 9));
}

#[test]
fn clients_are_counted_apart() {
    let mut limiter = RateLimiter::new();
    for _ in 0..10 {
        assert!(limiter.check_rate_limit_at("x".to_string(), 5));
    }
    assert!(!limiter.check_rate_limit_at("x".to_string(), 6));
    assert!(limiter.check_rate_limit_at("y".to_string(), 6));
}

#[test]
fn a_clock_that_goes_back_counts_as_no_time() {
    let mut limiter = RateLimiter::new();
    for _ in 0..10 {
        assert!(limiter.check_rate_limit_at("z".to_string(), 100 * SECOND));
    }
    assert!(!limiter.check_rate_limit_at("z".to_string(), 0));
}

#[test]
fn live_clock_limits_burst() {
    let mut limiter = RateLimiter::new();
    let mut admitted = 0;
    for _ in 0..15 {
        if limiter.check_rate_limit("10.0.0.1".to_string()) {
            admitted += 1;
        }
    }
    assert_eq!(admitted, 10);
}

#[test]
fn unknown_clients_share_a_count() {
    let mut limiter = RateLimiter::new();
    for _ in 0..10 {
        assert!(verify_rate_limit(&mut limiter, None).is_ok());
    }
    let refused = verify_rate_limit(&mut limiter, None).unwrap_err();
    assert_eq!(refused.code, ErrorCode::RateLimitExceeded);
    assert_eq!(refused.status(), 429);
    assert_eq!(refused.message, "Rate limit exceeded. Max 10 requests per minute.");
    assert!(verify_rate_limit(&mut limiter, Some("unknownish".to_string())).is_ok());
    assert!(verify_rate_limit(&mut limiter, Some("unknown".to_string())).is_err());
}

#[test]
fn other_clients_do_not_change_an_answer() {
    let mut quiet = RateLimiter::new();
    let mut busy = RateLimiter::new();
    for i in 0..9u64 {
        assert!(quiet.check_rate_limit_at("b".to_string(), i * SECOND));
        assert!(busy.check_rate_limit_at("b".to_string(), i * SECOND));
    }
    for i in 0..30u64 {
        busy.check_rate_limit_at("a".to_string(), 9 * SECOND + i);
    }
    assert_eq!(
        quiet.check_rate_limit_at("b".to_string(), 20 * SECOND),
        busy.check_rate_limit_at("b".to_string(), 20 * SECOND)
    );
    assert_eq!(
        quiet.check_rate_limit_at("b".to_string(), 21 * SECOND),
        busy.check_rate_limit_at("b".to_string(), 21 * SECOND)
    );
}
