use vstd::prelude::*;

verus! {

/// Wraps `NSHTTPCookie.AcceptPolicy` values.
#[derive(Debug, Clone, Copy, PartialEq, Eq, Structural)]
pub enum CookiePolicy {
    /// Mirrors the `Allow` case used by `NSHTTPCookie.AcceptPolicy`.
    Allow,
    /// Mirrors the `Disallow` case used by `NSHTTPCookie.AcceptPolicy`.
    Disallow,
}

impl CookiePolicy {
    /// The raw value of a policy: `Allow` is 0, `Disallow` is 1.
    pub open spec fn raw_value(self) -> i32 {
        match self {
            CookiePolicy::Allow => 0,
            CookiePolicy::Disallow => 1,
        }
    }

    /// The policy a raw value decodes to: 1 is `Disallow`, anything else `Allow`.
    pub open spec fn from_raw_value(raw: i32) -> Self {
        if raw == 1 {
            CookiePolicy::Disallow
        } else {
            CookiePolicy::Allow
        }
    }

    /// Returns the corresponding value from `NSHTTPCookie.AcceptPolicy`.
    #[must_use]
    pub fn as_raw(self) -> (raw: i32)
        ensures
            raw == self.raw_value(),
    {
        match self {
            CookiePolicy::Allow => 0,
            CookiePolicy::Disallow => 1,
        }
    }

    /// Creates a value for `NSHTTPCookie.AcceptPolicy`.
    #[must_use]
    pub fn from_raw(raw: i32) -> (policy: Self)
        ensures
            policy == Self::from_raw_value(raw),
    {
        match raw {
            1 => CookiePolicy::Disallow,
            _ => CookiePolicy::Allow,
        }
    }
}

/// The cookie accept-policy numbering: `Allow` is 0 and `Disallow` 1; any other raw value
/// decodes to `Allow`, and the two policies have different raw values.
pub proof fn lemma_cookie_policy_values(a: CookiePolicy, b: CookiePolicy, raw: i32)
    ensures
        CookiePolicy::Allow.raw_value() == 0,
        CookiePolicy::Disallow.raw_value() == 1,
        CookiePolicy::from_raw_value(0i32) == CookiePolicy::Allow,
        CookiePolicy::from_raw_value(1i32) == CookiePolicy::Disallow,
        (raw != 0 && raw != 1) ==> CookiePolicy::from_raw_value(raw) == CookiePolicy::Allow,
        a.raw_value() == b.raw_value() ==> a == b,
{
}

/// A cookie policy's raw value decodes back to the policy.
pub proof fn lemma_cookie_policy_round_trip(policy: CookiePolicy)
    ensures
        CookiePolicy::from_raw_value(policy.raw_value()) == policy,
{
}

#[verifier::external_type_specification]
#[verifier::external_body]
pub struct ExSystemTime(std::time::SystemTime);

/// What `SystemTime::duration_since(UNIX_EPOCH)` gives for `time`, with its error
/// dropped: how long after the Unix epoch `time` is, or `None` for an earlier time.
pub uninterp spec fn epoch_offset(time: std::time::SystemTime) -> Option<core::time::Duration>;

/// What `Duration::as_secs` gives for `duration`: its whole seconds.
pub uninterp spec fn duration_secs(duration: core::time::Duration) -> u64;

/// The whole seconds from the Unix epoch to `time`, or 0 for a time before the epoch.
pub open spec fn unix_epoch_seconds(time: std::time::SystemTime) -> u64 {
    match epoch_offset(time) {
        Some(duration) => duration_secs(duration),
        None => 0,
    }
}

/// The largest `i64` at or below `seconds`: `seconds` itself, or `i64::MAX` when it
/// does not fit.
pub open spec fn capped_seconds(seconds: u64) -> i64 {
    if seconds > i64::MAX { i64::MAX } else { seconds as i64 }
}

/// How long after the Unix epoch `time` is, or `None` for a time before the epoch.
///
/// Calls `SystemTime::duration_since(UNIX_EPOCH)`, keeping the `Duration` it returns
/// and dropping the `SystemTimeError` it reports for an earlier time. The contract
/// claims only that the result is a function of `time`, named [`epoch_offset`].
#[verifier::external_body]
fn duration_since_unix_epoch(time: std::time::SystemTime) -> (offset: Option<core::time::Duration>)
    ensures
        offset == epoch_offset(time),
{
    time.duration_since(std::time::UNIX_EPOCH).ok()
}

/// The whole seconds of `duration`.
///
/// Calls `Duration::as_secs`. The contract claims only that the result is a function
/// of `duration`, named [`duration_secs`].
#[verifier::external_body]
fn whole_seconds(duration: core::time::Duration) -> (seconds: u64)
    ensures
        seconds == duration_secs(duration),
{
    duration.as_secs()
}

/// Wraps `NSHTTPCookie`.
#[derive(Debug, Clone, PartialEq, Eq)]
pub struct Cookie {
    /// Mirrors the `name` value exposed by `NSHTTPCookie`.
    pub name: String,
    /// Mirrors the `value` value exposed by `NSHTTPCookie`.
    pub value: String,
    /// Mirrors the `domain` value exposed by `NSHTTPCookie`.
    pub domain: String,
    /// Mirrors the `path` value exposed by `NSHTTPCookie`.
    pub path: String,
    /// Mirrors the `secure` value exposed by `NSHTTPCookie`.
    pub secure: bool,
    /// Mirrors the `http_only` value exposed by `NSHTTPCookie`.
    pub http_only: bool,
    /// Mirrors the `session_only` value exposed by `NSHTTPCookie`.
    pub session_only: bool,
    /// Mirrors the `expires` value exposed by `NSHTTPCookie`: seconds since the Unix epoch.
    pub expires: Option<i64>,
}

impl Cookie {
    /// Creates a value for `NSHTTPCookie`: a cookie for the whole site (`/`), neither
    /// secure, HTTP-only nor session-only, with no expiry.
    #[must_use]
    pub fn new(name: &str, value: &str, domain: &str) -> (cookie: Self)
        ensures
            cookie.name@ == name@,
            cookie.value@ == value@,
            cookie.domain@ == domain@,
            cookie.path@ == "/"@,
            !cookie.secure,
            !cookie.http_only,
            !cookie.session_only,
            cookie.expires is None,
    {
        Cookie {
            name: String::from_str(name),
            value: String::from_str(value),
            domain: String::from_str(domain),
            path: String::from_str("/"),
            secure: false,
            http_only: false,
            session_only: false,
            expires: None,
        }
    }

    /// Sets the corresponding option used by `NSHTTPCookie`: the path, all else kept.
    #[must_use]
    pub fn with_path(self, path: &str) -> (cookie: Self)
        ensures
            cookie == (Cookie { path: cookie.path, ..self }),
            cookie.path@ == path@,
    {
        Cookie { path: String::from_str(path), ..self }
    }

    /// Sets the corresponding option used by `NSHTTPCookie`: the secure flag, all else kept.
    #[must_use]
    pub fn with_secure(self, secure: bool) -> (cookie: Self)
        ensures
            cookie == (Cookie { secure, ..self }),
    {
        Cookie { secure, ..self }
    }

    /// Sets the corresponding option used by `NSHTTPCookie`: the HTTP-only flag, all else kept.
    #[must_use]
    pub fn with_http_only(self, http_only: bool) -> (cookie: Self)
        ensures
            cookie == (Cookie { http_only, ..self }),
    {
        Cookie { http_only, ..self }
    }

    /// Sets the corresponding option used by `NSHTTPCookie`: the session-only flag, all
    /// else kept.
    #[must_use]
    pub fn with_session_only(self, session_only: bool) -> (cookie: Self)
        ensures
            cookie == (Cookie { session_only, ..self }),
    {
        Cookie { session_only, ..self }
    }

    /// Sets the expiry to `seconds` after the Unix epoch, capped at `i64::MAX`; all else
    /// is kept.
    #[must_use]
    pub fn with_expires_at_seconds(self, seconds: u64) -> (cookie: Self)
        ensures
            cookie == (Cookie {
                expires: Some(if seconds > i64::MAX { i64::MAX } else { seconds as i64 }),
                ..self
            }),
    {
        let expires: i64 = if seconds > 0x7fff_ffff_ffff_ffffu64 {
            0x7fff_ffff_ffff_ffffi64
        } else {
            seconds as i64
        };
        Cookie { expires: Some(expires), ..self }
    }

    /// Sets the corresponding option used by `NSHTTPCookie`: the expiry, as whole
    /// seconds from the Unix epoch to `expires_at` (0 for a time before the epoch),
    /// capped at `i64::MAX`; all else is kept.
    #[must_use]
    pub fn with_expires(self, expires_at: std::time::SystemTime) -> (cookie: Self)
        ensures
            cookie == (Cookie { expires: Some(capped_seconds(unix_epoch_seconds(expires_at))), ..self }),
    {
        let seconds: u64 = match duration_since_unix_epoch(expires_at) {
            Some(duration) => whole_seconds(duration),
            None => 0,
        };
        self.with_expires_at_seconds(seconds)
    }
}

/// Captures data returned by `WKHTTPCookieStore`.
#[derive(Debug, Clone, PartialEq, Eq)]
pub struct CookieStoreEvent {
    /// Mirrors the `kind` value exposed by `WKHTTPCookieStore`.
    pub kind: String,
}

} // verus!
