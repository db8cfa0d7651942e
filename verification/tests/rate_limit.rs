use jot::middleware::rate_limit::{
    client_key, rejection_message, rejection_status, Admission, RateLimiterMiddleware,
};
use jot::middleware::RateLimiter;

const SECOND: u128 = 1_000_000_000;

#[test]
fn rate_limiter_allows_within_limit() {
    let limiter = RateLimiter::new(5, 60 * SECOND);
    let mut app = RateLimiterMiddleware::new(limiter);

    for _ in 0..5 {
        let outcome = app.call(None, Some("127.0.0.1".to_string()));
        assert_eq!(outcome, Admission::Forward);
    }
}

#[test]
fn rate_limiter_blocks_over_limit() {
    let limiter = RateLimiter::new(3, 60 * SECOND);
    let mut app = RateLimiterMiddleware::new(limiter);

    for _ in 0..3 {
        let outcome = app.call(None, None);
        assert_eq!(outcome, Admission::Forward);
    }

    let outcome = app.call(None, None);
    assert_eq!(outcome, Admission::TooManyRequests);
    assert_eq!(rejection_status(), 429);
    assert_eq!(rejection_message(), "Rate limit execeeded. Please try again later");
}

#[test]
fn fourth_request_in_the_window_is_denied_and_time_heals() {
    let mut limiter = RateLimiter::new(3, 60 * SECOND);
    assert!(limiter.is_allowed_at("a", 0));
    assert!(limiter.is_allowed_at("a", SECOND));
    assert!(limiter.is_allowed_at("a", 2 * SECOND));
    assert!(!limiter.is_allowed_at("a", 3 * SECOND));
    assert!(!limiter.is_allowed_at("a", 60 * SECOND - 1));
    // the admission at 0 is exactly one window old: it no longer counts
    assert!(limiter.is_allowed_at("a", 60 * SECOND));
    assert!(!limiter.is_allowed_at("a", 60 * SECOND));
    // those at 1 s and 2 s have left, those at 60 s stay
    assert!(limiter.is_allowed_at("a", 62 * SECOND));
    assert!(limiter.is_allowed_at("a", 62 * SECOND));
    assert!(!limiter.is_allowed_at("a", 62 * SECOND));
    assert!(limiter.is_allowed_at("a", 1_000 * SECOND));
}

#[test]
fn a_denied_request_is_not_recorded() {
    let mut limiter = RateLimiter::new(1, 10);
    assert!(limiter.is_allowed_at("k", 100));
    assert!(!limiter.is_allowed_at("k", 105));
    assert!(!limiter.is_allowed_at("k", 109));
    // had the denials been recorded, the key would still be over the limit
    assert!(limiter.is_allowed_at("k", 110));
}

#[test]
fn keys_are_limited_independently() {
    let mut limiter = RateLimiter::new(2, 60 * SECOND);
    assert!(limiter.is_allowed_at("a", 1));
    assert!(limiter.is_allowed_at("a", 2));
    assert!(!limiter.is_allowed_at("a", 3));
    assert!(limiter.is_allowed_at("b", 3));
    assert!(!limiter.is_allowed_at("a", 4));
    assert!(limiter.is_allowed_at("b", 4));
    assert!(!limiter.is_allowed_at("b", 5));
    assert!(limiter.is_allowed_at("", 5));
}

#[test]
fn a_limit_of_zero_admits_nothing() {
    let mut limiter = RateLimiter::new(0, 60 * SECOND);
    assert!(!limiter.is_allowed_at("a", 1));
    assert!(!limiter.is_allowed("a"));
    assert!(!limiter.is_allowed_at("a", 1_000 * SECOND));
}

#[test]
fn a_window_longer_than_the_clock_keeps_everything() {
    let mut limiter = RateLimiter::new(2, u128::MAX);
    assert!(limiter.is_allowed_at("a", 0));
    assert!(limiter.is_allowed_at("a", u128::MAX - 1));
    assert!(!limiter.is_allowed_at("a", u128::MAX - 1));
    // at the end of the clock the admission at 0 is exactly one window old
    assert!(limiter.is_allowed_at("a", u128::MAX));
}

#[test]
fn the_clock_drives_is_allowed() {
    let mut limiter = RateLimiter::new(2, 3_600 * SECOND);
    assert!(limiter.is_allowed("a"));
    assert!(limiter.is_allowed("a"));
    assert!(!limiter.is_allowed("a"));
    assert!(limiter.is_allowed("b"));
}

#[test]
fn the_key_prefers_the_user_over_the_address() {
    let id: u128 = 0x550e8400_e29b_41d4_a716_446655440000;
    assert_eq!(
        client_key(Some(id), Some("10.0.0.1".to_string())),
        "550e8400-e29b-41d4-a716-446655440000"
    );
    assert_eq!(client_key(Some(id), None), "550e8400-e29b-41d4-a716-446655440000");
    assert_eq!(client_key(None, Some("10.0.0.1".to_string())), "10.0.0.1");
    assert_eq!(client_key(None, None), "unknown");
}

#[test]
fn the_middleware_counts_a_user_across_addresses() {
    let mut app = RateLimiterMiddleware::new(RateLimiter::new(1, 60 * SECOND));
    assert_eq!(app.call_at(Some(1), Some("10.0.0.1".to_string()), 5), Admission::Forward);
    assert_eq!(app.call_at(Some(1), Some("10.0.0.2".to_string()), 6), Admission::TooManyRequests);
    assert_eq!(app.call_at(Some(2), Some("10.0.0.1".to_string()), 7), Admission::Forward);
    assert_eq!(app.call_at(None, Some("10.0.0.1".to_string()), 8), Admission::Forward);
    assert_eq!(app.call_at(None, Some("10.0.0.1".to_string()), 9), Admission::TooManyRequests);
    assert_eq!(app.call_at(None, None, 9), Admission::Forward);
}
