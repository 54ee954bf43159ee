use std::time::{Duration, UNIX_EPOCH};

use webkit::http_cookie_store::{Cookie, CookiePolicy};

#[test]
fn cookie_defaults_and_builders() {
    let cookie = Cookie::new("session", "abc", "example.test");
    assert_eq!(cookie.name, "session");
    assert_eq!(cookie.value, "abc");
    assert_eq!(cookie.domain, "example.test");
    assert_eq!(cookie.path, "/");
    assert!(!cookie.secure && !cookie.http_only && !cookie.session_only);
    assert_eq!(cookie.expires, None);

    let built = cookie
        .clone()
        .with_path("/app")
        .with_secure(true)
        .with_http_only(true)
        .with_session_only(true);
    assert_eq!(built.path, "/app");
    assert!(built.secure && built.http_only && built.session_only);
    assert_eq!(built.name, "session");
    assert_eq!(built.expires, None);
}

#[test]
fn cookie_expiry_counts_seconds_from_the_epoch() {
    let cookie = Cookie::new("a", "b", "c");
    assert_eq!(
        cookie.clone().with_expires(UNIX_EPOCH + Duration::from_secs(1_700_000_000)).expires,
        Some(1_700_000_000)
    );
    assert_eq!(
        cookie.clone().with_expires(UNIX_EPOCH - Duration::from_secs(5)).expires,
        Some(0)
    );
    assert_eq!(cookie.clone().with_expires_at_seconds(42).expires, Some(42));
    assert_eq!(cookie.with_expires_at_seconds(u64::MAX).expires, Some(i64::MAX));
}

#[test]
fn cookie_policy_round_trips() {
    assert_eq!(CookiePolicy::Allow.as_raw(), 0);
    assert_eq!(CookiePolicy::Disallow.as_raw(), 1);
    assert_eq!(CookiePolicy::from_raw(1), CookiePolicy::Disallow);
    assert_eq!(CookiePolicy::from_raw(0), CookiePolicy::Allow);
    assert_eq!(CookiePolicy::from_raw(-7), CookiePolicy::Allow);
}

#[test]
fn cookie_expiry_drops_fractions_of_a_second() {
    let cookie = Cookie::new("a", "b", "c").with_secure(true);
    let expired = cookie.clone().with_expires(UNIX_EPOCH + Duration::from_millis(1_999));
    assert_eq!(expired.expires, Some(1));
    assert!(expired.secure);
    assert_eq!(expired.name, cookie.name);
}
