use vstd::prelude::*;

verus! {

/// Wraps `WKInactiveSchedulingPolicy` values.
#[derive(Debug, Clone, Copy, PartialEq, Eq, Structural)]
pub enum InactiveSchedulingPolicy {
    /// Mirrors the `Suspend` case used by `WKInactiveSchedulingPolicy`.
    Suspend,
    /// Mirrors the `Throttle` case used by `WKInactiveSchedulingPolicy`.
    Throttle,
    /// Mirrors the `none` case used by `WKInactiveSchedulingPolicy`: inactive views are
    /// neither suspended nor throttled.
    NoPolicy,
}

impl Default for InactiveSchedulingPolicy {
    fn default() -> (policy: Self)
        ensures
            policy == InactiveSchedulingPolicy::Suspend,
    {
        InactiveSchedulingPolicy::Suspend
    }
}

/// Wraps `WKWebpagePreferences.UpgradeToHTTPSPolicy` values.
#[derive(Debug, Clone, Copy, PartialEq, Eq, Structural)]
pub enum UpgradeToHTTPSPolicy {
    /// Mirrors the `KeepAsRequested` case used by `WKWebpagePreferences.UpgradeToHTTPSPolicy`.
    KeepAsRequested,
    /// Mirrors the `AutomaticFallbackToHttp` case used by `WKWebpagePreferences.UpgradeToHTTPSPolicy`.
    AutomaticFallbackToHttp,
    /// Mirrors the `UserMediatedFallbackToHttp` case used by `WKWebpagePreferences.UpgradeToHTTPSPolicy`.
    UserMediatedFallbackToHttp,
    /// Mirrors the `ErrorOnFailure` case used by `WKWebpagePreferences.UpgradeToHTTPSPolicy`.
    ErrorOnFailure,
}

impl Default for UpgradeToHTTPSPolicy {
    fn default() -> (policy: Self)
        ensures
            policy == UpgradeToHTTPSPolicy::KeepAsRequested,
    {
        UpgradeToHTTPSPolicy::KeepAsRequested
    }
}

impl UpgradeToHTTPSPolicy {
    /// The raw value of a policy: 0 to 3 in declaration order.
    pub open spec fn raw_value(self) -> i32 {
        match self {
            UpgradeToHTTPSPolicy::KeepAsRequested => 0,
            UpgradeToHTTPSPolicy::AutomaticFallbackToHttp => 1,
            UpgradeToHTTPSPolicy::UserMediatedFallbackToHttp => 2,
            UpgradeToHTTPSPolicy::ErrorOnFailure => 3,
        }
    }

    /// The policy a raw value decodes to: 1 to 3 name their policies, anything else is
    /// `KeepAsRequested`.
    pub open spec fn from_raw_value(raw: i32) -> Self {
        if raw == 1 {
            UpgradeToHTTPSPolicy::AutomaticFallbackToHttp
        } else if raw == 2 {
            UpgradeToHTTPSPolicy::UserMediatedFallbackToHttp
        } else if raw == 3 {
            UpgradeToHTTPSPolicy::ErrorOnFailure
        } else {
            UpgradeToHTTPSPolicy::KeepAsRequested
        }
    }

    /// Returns the corresponding value from `WKWebpagePreferences.UpgradeToHTTPSPolicy`.
    #[must_use]
    pub fn as_raw(self) -> (raw: i32)
        ensures
            raw == self.raw_value(),
    {
        match self {
            UpgradeToHTTPSPolicy::KeepAsRequested => 0,
            UpgradeToHTTPSPolicy::AutomaticFallbackToHttp => 1,
            UpgradeToHTTPSPolicy::UserMediatedFallbackToHttp => 2,
            UpgradeToHTTPSPolicy::ErrorOnFailure => 3,
        }
    }

    /// Creates a value for `WKWebpagePreferences.UpgradeToHTTPSPolicy`.
    #[must_use]
    pub fn from_raw(raw: i32) -> (policy: Self)
        ensures
            policy == Self::from_raw_value(raw),
    {
        match raw {
            1 => UpgradeToHTTPSPolicy::AutomaticFallbackToHttp,
            2 => UpgradeToHTTPSPolicy::UserMediatedFallbackToHttp,
            3 => UpgradeToHTTPSPolicy::ErrorOnFailure,
            _ => UpgradeToHTTPSPolicy::KeepAsRequested,
        }
    }
}

/// WebKit's upgrade-to-HTTPS policy numbering: 0 to 3 in declaration order
/// (`KeepAsRequested` 0, ..., `ErrorOnFailure` 3); any other raw value decodes to
/// `KeepAsRequested`, and no two policies share a raw value.
pub proof fn lemma_upgrade_policy_values(a: UpgradeToHTTPSPolicy, b: UpgradeToHTTPSPolicy, raw: i32)
    ensures
        UpgradeToHTTPSPolicy::KeepAsRequested.raw_value() == 0,
        UpgradeToHTTPSPolicy::AutomaticFallbackToHttp.raw_value() == 1,
        UpgradeToHTTPSPolicy::UserMediatedFallbackToHttp.raw_value() == 2,
        UpgradeToHTTPSPolicy::ErrorOnFailure.raw_value() == 3,
        UpgradeToHTTPSPolicy::from_raw_value(0i32) == UpgradeToHTTPSPolicy::KeepAsRequested,
        UpgradeToHTTPSPolicy::from_raw_value(1i32) == UpgradeToHTTPSPolicy::AutomaticFallbackToHttp,
        UpgradeToHTTPSPolicy::from_raw_value(2i32) == UpgradeToHTTPSPolicy::UserMediatedFallbackToHttp,
        UpgradeToHTTPSPolicy::from_raw_value(3i32) == UpgradeToHTTPSPolicy::ErrorOnFailure,
        (raw != 0 && raw != 1 && raw != 2 && raw != 3) ==> UpgradeToHTTPSPolicy::from_raw_value(raw) == UpgradeToHTTPSPolicy::KeepAsRequested,
        a.raw_value() == b.raw_value() ==> a == b,
{
}

/// An HTTPS-upgrade policy's raw value decodes back to the policy.
pub proof fn lemma_upgrade_policy_round_trip(policy: UpgradeToHTTPSPolicy)
    ensures
        UpgradeToHTTPSPolicy::from_raw_value(policy.raw_value()) == policy,
{
}

} // verus!
