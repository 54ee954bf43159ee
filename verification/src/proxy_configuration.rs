use vstd::prelude::*;

verus! {

/// Summarises a `nw_proxy_config_t` used by `WKWebsiteDataStore`.
#[derive(Debug, Clone, PartialEq, Eq)]
pub struct ProxyConfigurationSummary {
    /// Human-readable description returned by Network.framework.
    pub description: String,
    /// Whether failover to a direct connection is allowed.
    pub failover_allowed: bool,
    /// Domain suffixes that should use the proxy.
    pub match_domains: Vec<String>,
    /// Domain suffixes that should bypass the proxy.
    pub excluded_domains: Vec<String>,
}

impl Default for ProxyConfigurationSummary {
    /// An empty description, no failover and no domains.
    fn default() -> (summary: Self)
        ensures
            summary.description@.len() == 0,
            !summary.failover_allowed,
            summary.match_domains@.len() == 0,
            summary.excluded_domains@.len() == 0,
    {
        ProxyConfigurationSummary {
            description: String::new(),
            failover_allowed: false,
            match_domains: Vec::new(),
            excluded_domains: Vec::new(),
        }
    }
}

} // verus!
