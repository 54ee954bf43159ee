use vstd::prelude::*;

verus! {

/// Wraps `WKDownloadRedirectPolicy` values.
#[derive(Debug, Clone, Copy, PartialEq, Eq, Structural)]
pub enum DownloadRedirectPolicy {
    /// Mirrors the `Cancel` case used by `WKDownloadRedirectPolicy`.
    Cancel,
    /// Mirrors the `Allow` case used by `WKDownloadRedirectPolicy`.
    Allow,
}

impl DownloadRedirectPolicy {
    /// The raw value of a policy: `Cancel` is 0, `Allow` is 1.
    pub open spec fn raw_value(self) -> i32 {
        match self {
            DownloadRedirectPolicy::Cancel => 0,
            DownloadRedirectPolicy::Allow => 1,
        }
    }

    /// The policy a raw value decodes to: 0 is `Cancel`, anything else `Allow`.
    pub open spec fn from_raw_value(raw: i32) -> Self {
        if raw == 0 {
            DownloadRedirectPolicy::Cancel
        } else {
            DownloadRedirectPolicy::Allow
        }
    }

    /// Returns the corresponding value from `WKDownloadRedirectPolicy`.
    #[must_use]
    pub fn as_raw(self) -> (raw: i32)
        ensures
            raw == self.raw_value(),
    {
        match self {
            DownloadRedirectPolicy::Cancel => 0,
            DownloadRedirectPolicy::Allow => 1,
        }
    }

    /// Creates a value for `WKDownloadRedirectPolicy`.
    #[must_use]
    pub fn from_raw(raw: i32) -> (policy: Self)
        ensures
            policy == Self::from_raw_value(raw),
    {
        match raw {
            0 => DownloadRedirectPolicy::Cancel,
            _ => DownloadRedirectPolicy::Allow,
        }
    }
}

/// WebKit's `WKDownloadRedirectPolicy` numbering: `Cancel` is 0 and `Allow` 1; any other
/// raw value decodes to `Allow`, and the two policies have different raw values.
pub proof fn lemma_redirect_policy_values(a: DownloadRedirectPolicy, b: DownloadRedirectPolicy, raw: i32)
    ensures
        DownloadRedirectPolicy::Cancel.raw_value() == 0,
        DownloadRedirectPolicy::Allow.raw_value() == 1,
        DownloadRedirectPolicy::from_raw_value(0i32) == DownloadRedirectPolicy::Cancel,
        DownloadRedirectPolicy::from_raw_value(1i32) == DownloadRedirectPolicy::Allow,
        (raw != 0 && raw != 1) ==> DownloadRedirectPolicy::from_raw_value(raw) == DownloadRedirectPolicy::Allow,
        a.raw_value() == b.raw_value() ==> a == b,
{
}

/// A redirect policy's raw value decodes back to the policy.
pub proof fn lemma_redirect_policy_round_trip(policy: DownloadRedirectPolicy)
    ensures
        DownloadRedirectPolicy::from_raw_value(policy.raw_value()) == policy,
{
}

/// Captures data returned by `WKDownload`.
#[derive(Debug, Clone, PartialEq, Eq)]
pub struct DownloadEvent {
    /// Mirrors the `kind` value exposed by `WKDownload`.
    pub kind: String,
    /// Mirrors the `suggested_filename` value exposed by `WKDownload`.
    pub suggested_filename: Option<String>,
    /// Mirrors the `destination` value exposed by `WKDownload`.
    pub destination: Option<String>,
    /// Mirrors the `original_request_url` value exposed by `WKDownload`.
    pub original_request_url: Option<String>,
    /// Mirrors the `error` value exposed by `WKDownload`.
    pub error: Option<String>,
    /// Mirrors the `has_resume_data` value exposed by `WKDownload`.
    pub has_resume_data: Option<bool>,
    /// Mirrors the `status_code` value exposed by `WKDownload`.
    pub status_code: Option<i64>,
    /// Mirrors the `url` value exposed by `WKDownload`.
    pub url: Option<String>,
}

} // verus!
