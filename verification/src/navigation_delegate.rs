use std::collections::BTreeMap;

use vstd::prelude::*;

verus! {

/// Wraps `WKNavigationActionPolicy` values.
#[derive(Debug, Clone, Copy, PartialEq, Eq, Structural)]
pub enum NavigationActionPolicy {
    /// Mirrors the `Cancel` case used by `WKNavigationActionPolicy`.
    Cancel,
    /// Mirrors the `Allow` case used by `WKNavigationActionPolicy`.
    Allow,
    /// Mirrors the `Download` case used by `WKNavigationActionPolicy`.
    Download,
}

impl NavigationActionPolicy {
    /// Returns the corresponding value from `WKNavigationActionPolicy`: 0, 1 and 2 for
    /// cancel, allow and download.
    #[must_use]
    pub fn as_raw(self) -> (raw: i32)
        ensures
            raw == (match self {
                NavigationActionPolicy::Cancel => 0i32,
                NavigationActionPolicy::Allow => 1i32,
                NavigationActionPolicy::Download => 2i32,
            }),
    {
        match self {
            NavigationActionPolicy::Cancel => 0,
            NavigationActionPolicy::Allow => 1,
            NavigationActionPolicy::Download => 2,
        }
    }
}

/// Wraps `WKNavigationResponsePolicy` values.
#[derive(Debug, Clone, Copy, PartialEq, Eq, Structural)]
pub enum NavigationResponsePolicy {
    /// Mirrors the `Cancel` case used by `WKNavigationResponsePolicy`.
    Cancel,
    /// Mirrors the `Allow` case used by `WKNavigationResponsePolicy`.
    Allow,
    /// Mirrors the `Download` case used by `WKNavigationResponsePolicy`.
    Download,
}

impl NavigationResponsePolicy {
    /// Returns the corresponding value from `WKNavigationResponsePolicy`: 0, 1 and 2 for
    /// cancel, allow and download.
    #[must_use]
    pub fn as_raw(self) -> (raw: i32)
        ensures
            raw == (match self {
                NavigationResponsePolicy::Cancel => 0i32,
                NavigationResponsePolicy::Allow => 1i32,
                NavigationResponsePolicy::Download => 2i32,
            }),
    {
        match self {
            NavigationResponsePolicy::Cancel => 0,
            NavigationResponsePolicy::Allow => 1,
            NavigationResponsePolicy::Download => 2,
        }
    }
}

/// Configures `WKNavigationDelegate`.
#[derive(Debug, Clone, PartialEq, Eq, Structural)]
pub struct NavigationDelegateConfig {
    /// Mirrors the `action_policy` value exposed by `WKNavigationDelegate`.
    pub action_policy: NavigationActionPolicy,
    /// Mirrors the `response_policy` value exposed by `WKNavigationDelegate`.
    pub response_policy: NavigationResponsePolicy,
}

impl Default for NavigationDelegateConfig {
    /// Allows every navigation action and response.
    fn default() -> (config: Self)
        ensures
            config.action_policy == NavigationActionPolicy::Allow,
            config.response_policy == NavigationResponsePolicy::Allow,
    {
        NavigationDelegateConfig {
            action_policy: NavigationActionPolicy::Allow,
            response_policy: NavigationResponsePolicy::Allow,
        }
    }
}

/// Wraps `WKNavigationType` values.
#[derive(Debug, Clone, Copy, PartialEq, Eq, Structural)]
pub enum NavigationType {
    /// Mirrors the `LinkActivated` case used by `WKNavigationType`.
    LinkActivated,
    /// Mirrors the `FormSubmitted` case used by `WKNavigationType`.
    FormSubmitted,
    /// Mirrors the `BackForward` case used by `WKNavigationType`.
    BackForward,
    /// Mirrors the `Reload` case used by `WKNavigationType`.
    Reload,
    /// Mirrors the `FormResubmitted` case used by `WKNavigationType`.
    FormResubmitted,
    /// Mirrors the `Other` case used by `WKNavigationType`.
    Other,
}

impl Default for NavigationType {
    fn default() -> (kind: Self)
        ensures
            kind == NavigationType::Other,
    {
        NavigationType::Other
    }
}

impl NavigationType {
    /// The raw value of a navigation type: 0 to 4 in declaration order, -1 for `Other`.
    pub open spec fn raw_value(self) -> i64 {
        match self {
            NavigationType::LinkActivated => 0i64,
            NavigationType::FormSubmitted => 1,
            NavigationType::BackForward => 2,
            NavigationType::Reload => 3,
            NavigationType::FormResubmitted => 4,
            NavigationType::Other => -1i64,
        }
    }

    /// The navigation type a raw value decodes to: 0 to 4 name their types, anything
    /// else is `Other`.
    pub open spec fn from_raw_value(raw: i64) -> Self {
        if raw == 0 {
            NavigationType::LinkActivated
        } else if raw == 1 {
            NavigationType::FormSubmitted
        } else if raw == 2 {
            NavigationType::BackForward
        } else if raw == 3 {
            NavigationType::Reload
        } else if raw == 4 {
            NavigationType::FormResubmitted
        } else {
            NavigationType::Other
        }
    }

    /// Returns the corresponding value from `WKNavigationType`.
    #[must_use]
    pub fn as_raw(self) -> (raw: i64)
        ensures
            raw == self.raw_value(),
    {
        match self {
            NavigationType::LinkActivated => 0,
            NavigationType::FormSubmitted => 1,
            NavigationType::BackForward => 2,
            NavigationType::Reload => 3,
            NavigationType::FormResubmitted => 4,
            NavigationType::Other => -1,
        }
    }

    /// Creates a value for `WKNavigationType`.
    #[must_use]
    pub fn from_raw(raw: i64) -> (kind: Self)
        ensures
            kind == Self::from_raw_value(raw),
    {
        match raw {
            0 => NavigationType::LinkActivated,
            1 => NavigationType::FormSubmitted,
            2 => NavigationType::BackForward,
            3 => NavigationType::Reload,
            4 => NavigationType::FormResubmitted,
            _ => NavigationType::Other,
        }
    }
}

/// WebKit's `WKNavigationType` numbering: `LinkActivated` 0, `FormSubmitted` 1,
/// `BackForward` 2, `Reload` 3, `FormResubmitted` 4 and `Other` -1; any other raw value
/// decodes to `Other`, and no two types share a raw value.
pub proof fn lemma_navigation_type_values(a: NavigationType, b: NavigationType, raw: i64)
    ensures
        NavigationType::LinkActivated.raw_value() == 0,
        NavigationType::FormSubmitted.raw_value() == 1,
        NavigationType::BackForward.raw_value() == 2,
        NavigationType::Reload.raw_value() == 3,
        NavigationType::FormResubmitted.raw_value() == 4,
        NavigationType::Other.raw_value() == -1,
        NavigationType::from_raw_value(0i64) == NavigationType::LinkActivated,
        NavigationType::from_raw_value(1i64) == NavigationType::FormSubmitted,
        NavigationType::from_raw_value(2i64) == NavigationType::BackForward,
        NavigationType::from_raw_value(3i64) == NavigationType::Reload,
        NavigationType::from_raw_value(4i64) == NavigationType::FormResubmitted,
        NavigationType::from_raw_value(-1i64) == NavigationType::Other,
        (raw != 0 && raw != 1 && raw != 2 && raw != 3 && raw != 4 && raw != -1) ==> NavigationType::from_raw_value(raw) == NavigationType::Other,
        a.raw_value() == b.raw_value() ==> a == b,
{
}

/// A navigation type's raw value decodes back to the type.
pub proof fn lemma_navigation_type_round_trip(kind: NavigationType)
    ensures
        NavigationType::from_raw_value(kind.raw_value()) == kind,
{
}

/// Wraps `WKFrameInfo`.
#[derive(Debug, Clone, PartialEq, Eq)]
pub struct FrameInfo {
    /// Mirrors the `main_frame` value exposed by `WKFrameInfo`.
    pub main_frame: bool,
    /// Mirrors the `request_url` value exposed by `WKFrameInfo`.
    pub request_url: String,
    /// Mirrors the `request_method` value exposed by `WKFrameInfo`.
    pub request_method: String,
    /// Mirrors the `security_origin_protocol` value exposed by `WKFrameInfo`.
    pub security_origin_protocol: Option<String>,
    /// Mirrors the `security_origin_host` value exposed by `WKFrameInfo`.
    pub security_origin_host: Option<String>,
    /// Mirrors the `security_origin_port` value exposed by `WKFrameInfo`.
    pub security_origin_port: Option<i64>,
    /// Mirrors the `webview_url` value exposed by `WKFrameInfo`.
    pub webview_url: Option<String>,
}

impl Default for FrameInfo {
    /// A frame that is not the main frame, with empty request text and no origin.
    fn default() -> (frame: Self)
        ensures
            !frame.main_frame,
            frame.request_url@.len() == 0,
            frame.request_method@.len() == 0,
            frame.security_origin_protocol is None,
            frame.security_origin_host is None,
            frame.security_origin_port is None,
            frame.webview_url is None,
    {
        FrameInfo {
            main_frame: false,
            request_url: String::new(),
            request_method: String::new(),
            security_origin_protocol: None,
            security_origin_host: None,
            security_origin_port: None,
            webview_url: None,
        }
    }
}

/// Wraps `WKNavigationAction`.
#[derive(Debug, Clone, PartialEq, Eq)]
pub struct NavigationAction {
    /// Mirrors the `navigation_type` value exposed by `WKNavigationAction`.
    pub navigation_type: NavigationType,
    /// Mirrors the `navigation_type_raw_value` value exposed by `WKNavigationAction`.
    pub navigation_type_raw_value: i64,
    /// Mirrors the `request_url` value exposed by `WKNavigationAction`.
    pub request_url: String,
    /// Mirrors the `request_method` value exposed by `WKNavigationAction`.
    pub request_method: String,
    /// Mirrors the `request_headers` value exposed by `WKNavigationAction`.
    pub request_headers: BTreeMap<String, String>,
    /// Mirrors the `source_frame` value exposed by `WKNavigationAction`.
    pub source_frame: FrameInfo,
    /// Mirrors the `target_frame` value exposed by `WKNavigationAction`.
    pub target_frame: Option<FrameInfo>,
    /// Mirrors the `should_perform_download` value exposed by `WKNavigationAction`.
    pub should_perform_download: bool,
    /// Mirrors the `modifier_flags` value exposed by `WKNavigationAction`.
    pub modifier_flags: u64,
    /// Mirrors the `button_number` value exposed by `WKNavigationAction`.
    pub button_number: i64,
    /// Mirrors the `content_rule_list_redirect` value exposed by `WKNavigationAction`.
    pub content_rule_list_redirect: Option<bool>,
}

impl Default for NavigationAction {
    /// An `Other` navigation (raw value -1) with empty request, no headers, a default
    /// source frame and no target frame.
    fn default() -> (action: Self)
        ensures
            action.navigation_type == NavigationType::Other,
            action.navigation_type_raw_value == NavigationType::Other.raw_value(),
            action.request_url@.len() == 0,
            action.request_method@.len() == 0,
            action.request_headers@ == Map::<String, String>::empty(),
            !action.source_frame.main_frame,
            action.source_frame.request_url@.len() == 0,
            action.source_frame.request_method@.len() == 0,
            action.source_frame.security_origin_protocol is None,
            action.source_frame.security_origin_host is None,
            action.source_frame.security_origin_port is None,
            action.source_frame.webview_url is None,
            action.target_frame is None,
            !action.should_perform_download,
            action.modifier_flags == 0,
            action.button_number == 0,
            action.content_rule_list_redirect is None,
    {
        NavigationAction {
            navigation_type: NavigationType::Other,
            navigation_type_raw_value: NavigationType::Other.as_raw(),
            request_url: String::new(),
            request_method: String::new(),
            request_headers: BTreeMap::new(),
            source_frame: FrameInfo::default(),
            target_frame: None,
            should_perform_download: false,
            modifier_flags: 0,
            button_number: 0,
            content_rule_list_redirect: None,
        }
    }
}

/// Wraps `WKNavigationResponse`.
#[derive(Debug, Clone, PartialEq, Eq)]
pub struct NavigationResponse {
    /// Mirrors the `for_main_frame` value exposed by `WKNavigationResponse`.
    pub for_main_frame: bool,
    /// Mirrors the `url` value exposed by `WKNavigationResponse`.
    pub url: String,
    /// Mirrors the `mime_type` value exposed by `WKNavigationResponse`.
    pub mime_type: Option<String>,
    /// Mirrors the `expected_content_length` value exposed by `WKNavigationResponse`.
    pub expected_content_length: i64,
    /// Mirrors the `text_encoding_name` value exposed by `WKNavigationResponse`.
    pub text_encoding_name: Option<String>,
    /// Mirrors the `status_code` value exposed by `WKNavigationResponse`.
    pub status_code: Option<i64>,
    /// Mirrors the `headers` value exposed by `WKNavigationResponse`.
    pub headers: BTreeMap<String, String>,
    /// Mirrors the `can_show_mime_type` value exposed by `WKNavigationResponse`.
    pub can_show_mime_type: bool,
}

impl Default for NavigationResponse {
    /// A response with every field empty, zero, `false` or absent.
    fn default() -> (response: Self)
        ensures
            !response.for_main_frame,
            response.url@.len() == 0,
            response.mime_type is None,
            response.expected_content_length == 0,
            response.text_encoding_name is None,
            response.status_code is None,
            response.headers@ == Map::<String, String>::empty(),
            !response.can_show_mime_type,
    {
        NavigationResponse {
            for_main_frame: false,
            url: String::new(),
            mime_type: None,
            expected_content_length: 0,
            text_encoding_name: None,
            status_code: None,
            headers: BTreeMap::new(),
            can_show_mime_type: false,
        }
    }
}

/// Wraps `WKNavigationDelegate` values.
#[derive(Debug, Clone, PartialEq, Eq, Structural)]
pub enum NavigationEventKind {
    /// Mirrors the `DidStartProvisional` case used by `WKNavigationDelegate`.
    DidStartProvisional,
    /// Mirrors the `DidReceiveServerRedirect` case used by `WKNavigationDelegate`.
    DidReceiveServerRedirect,
    /// Mirrors the `DidCommit` case used by `WKNavigationDelegate`.
    DidCommit,
    /// Mirrors the `DidFinish` case used by `WKNavigationDelegate`.
    DidFinish,
    /// Mirrors the `DidFail` case used by `WKNavigationDelegate`.
    DidFail,
    /// Mirrors the `DidFailProvisional` case used by `WKNavigationDelegate`.
    DidFailProvisional,
    /// Mirrors the `DecidePolicyForAction` case used by `WKNavigationDelegate`.
    DecidePolicyForAction,
    /// Mirrors the `DecidePolicyForResponse` case used by `WKNavigationDelegate`.
    DecidePolicyForResponse,
    /// Mirrors the `ProcessDidTerminate` case used by `WKNavigationDelegate`.
    ProcessDidTerminate,
    /// Mirrors the `NavigationActionDidBecomeDownload` case used by `WKNavigationDelegate`.
    NavigationActionDidBecomeDownload,
    /// Mirrors the `NavigationResponseDidBecomeDownload` case used by `WKNavigationDelegate`.
    NavigationResponseDidBecomeDownload,
    /// Mirrors the `Unknown` case used by `WKNavigationDelegate`.
    Unknown,
}

/// Captures data returned by `WKNavigationDelegate`.
#[derive(Debug, Clone, PartialEq, Eq)]
pub struct NavigationEvent {
    /// Mirrors the `kind` value exposed by `WKNavigationDelegate`.
    pub kind: NavigationEventKind,
    /// Mirrors the `url` value exposed by `WKNavigationDelegate`.
    pub url: String,
    /// Mirrors the `error` value exposed by `WKNavigationDelegate`.
    pub error: Option<String>,
    /// Mirrors the `navigation_type` value exposed by `WKNavigationDelegate`.
    pub navigation_type: Option<i64>,
    /// Mirrors the `status_code` value exposed by `WKNavigationDelegate`.
    pub status_code: Option<i64>,
    /// Mirrors the `navigation_action` value exposed by `WKNavigationDelegate`.
    pub navigation_action: Option<NavigationAction>,
    /// Mirrors the `navigation_response` value exposed by `WKNavigationDelegate`.
    pub navigation_response: Option<NavigationResponse>,
}

impl NavigationEvent {
    /// Mirrors the corresponding `WKNavigationDelegate` API: an `Unknown` event with an
    /// empty URL and nothing else.
    #[must_use]
    pub fn unknown() -> (event: Self)
        ensures
            event.kind == NavigationEventKind::Unknown,
            event.url@.len() == 0,
            event.error is None,
            event.navigation_type is None,
            event.status_code is None,
            event.navigation_action is None,
            event.navigation_response is None,
    {
        NavigationEvent {
            kind: NavigationEventKind::Unknown,
            url: String::new(),
            error: None,
            navigation_type: None,
            status_code: None,
            navigation_action: None,
            navigation_response: None,
        }
    }

    /// Returns the corresponding value from `WKNavigationDelegate`: the event's raw
    /// navigation type decoded, if it carries one.
    #[must_use]
    pub fn navigation_type_enum(&self) -> (kind: Option<NavigationType>)
        ensures
            kind == match self.navigation_type {
                Some(raw) => Some(NavigationType::from_raw_value(raw)),
                None => None,
            },
    {
        match self.navigation_type {
            Some(raw) => Some(NavigationType::from_raw(raw)),
            None => None,
        }
    }
}

} // verus!
