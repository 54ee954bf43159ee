use vstd::prelude::*;

verus! {

#[verifier::external_type_specification]
#[verifier::external_body]
pub struct ExJsonValue(serde_json::Value);

/// Configures `WKUIDelegate`.
#[derive(Debug, Clone, PartialEq, Eq)]
pub struct UIDelegateConfig {
    /// Mirrors the `confirm_response` value exposed by `WKUIDelegate`.
    pub confirm_response: bool,
    /// Mirrors the `prompt_response` value exposed by `WKUIDelegate`.
    pub prompt_response: Option<String>,
}

impl Default for UIDelegateConfig {
    /// Declines confirmations and gives no prompt response.
    fn default() -> (config: Self)
        ensures
            !config.confirm_response,
            config.prompt_response is None,
    {
        UIDelegateConfig { confirm_response: false, prompt_response: None }
    }
}

/// Wraps `WKPermissionDecision` values.
#[derive(Debug, Clone, Copy, PartialEq, Eq, Structural)]
pub enum PermissionDecision {
    /// Mirrors the `Prompt` case used by `WKPermissionDecision`.
    Prompt,
    /// Mirrors the `Grant` case used by `WKPermissionDecision`.
    Grant,
    /// Mirrors the `Deny` case used by `WKPermissionDecision`.
    Deny,
}

/// Wraps `WKMediaCaptureType` values.
#[derive(Debug, Clone, Copy, PartialEq, Eq, Structural)]
pub enum MediaCaptureType {
    /// Mirrors the `Camera` case used by `WKMediaCaptureType`.
    Camera,
    /// Mirrors the `Microphone` case used by `WKMediaCaptureType`.
    Microphone,
    /// Mirrors the `CameraAndMicrophone` case used by `WKMediaCaptureType`.
    CameraAndMicrophone,
}

/// Captures data returned by `WKOpenPanelParameters`.
#[derive(Debug, Clone, Copy, PartialEq, Eq, Structural)]
pub struct OpenPanelParameters {
    /// Mirrors the `allows_multiple_selection` value exposed by `WKOpenPanelParameters`.
    pub allows_multiple_selection: bool,
    /// Mirrors the `allows_directories` value exposed by `WKOpenPanelParameters`.
    pub allows_directories: bool,
}

impl Default for OpenPanelParameters {
    /// Neither multiple selection nor directories.
    fn default() -> (parameters: Self)
        ensures
            parameters == (OpenPanelParameters {
                allows_multiple_selection: false,
                allows_directories: false,
            }),
    {
        OpenPanelParameters { allows_multiple_selection: false, allows_directories: false }
    }
}

/// Wraps `WKSecurityOrigin`.
#[derive(Debug, Clone, PartialEq, Eq)]
pub struct SecurityOrigin {
    /// Mirrors the `protocol` value exposed by `WKSecurityOrigin`.
    pub protocol: String,
    /// Mirrors the `host` value exposed by `WKSecurityOrigin`.
    pub host: String,
    /// Mirrors the `port` value exposed by `WKSecurityOrigin`.
    pub port: i64,
}

impl Default for SecurityOrigin {
    /// An empty protocol and host, port 0.
    fn default() -> (origin: Self)
        ensures
            origin.protocol@.len() == 0,
            origin.host@.len() == 0,
            origin.port == 0,
    {
        SecurityOrigin { protocol: String::new(), host: String::new(), port: 0 }
    }
}

/// Captures data returned by `WKUIDelegate`.
#[derive(Debug, Clone, PartialEq, Eq)]
pub struct UIDelegateEvent {
    /// Mirrors the `kind` value exposed by `WKUIDelegate`.
    pub kind: String,
    /// Mirrors the `message` value exposed by `WKUIDelegate`.
    pub message: Option<String>,
    /// Mirrors the `prompt` value exposed by `WKUIDelegate`.
    pub prompt: Option<String>,
    /// Mirrors the `default_text` value exposed by `WKUIDelegate`.
    pub default_text: Option<String>,
    /// Mirrors the `frame_url` value exposed by `WKUIDelegate`.
    pub frame_url: Option<String>,
    /// Mirrors the `response` value exposed by `WKUIDelegate`.
    pub response: Option<serde_json::Value>,
    /// Mirrors the `allows_multiple_selection` value exposed by `WKUIDelegate`.
    pub allows_multiple_selection: Option<bool>,
    /// Mirrors the `allows_directories` value exposed by `WKUIDelegate`.
    pub allows_directories: Option<bool>,
    /// Mirrors the `host` value exposed by `WKUIDelegate`.
    pub host: Option<String>,
    /// Mirrors the `type` value exposed by `WKUIDelegate`.
    pub type_code: Option<i64>,
}

impl UIDelegateEvent {
    /// Returns the corresponding value from `WKUIDelegate`: for an `openPanel` event its
    /// panel parameters, each flag `false` when the event leaves it out; nothing for any
    /// other event.
    #[must_use]
    pub fn open_panel_parameters(&self) -> (parameters: Option<OpenPanelParameters>)
        ensures
            parameters is Some <==> self.kind@ == "openPanel"@,
            parameters matches Some(p) ==> p == (OpenPanelParameters {
                allows_multiple_selection: self.allows_multiple_selection == Some(true),
                allows_directories: self.allows_directories == Some(true),
            }),
    {
        let open_panel = String::from_str("openPanel");
        if self.kind == open_panel {
            Some(
                OpenPanelParameters {
                    allows_multiple_selection: match self.allows_multiple_selection {
                        Some(flag) => flag,
                        None => false,
                    },
                    allows_directories: match self.allows_directories {
                        Some(flag) => flag,
                        None => false,
                    },
                },
            )
        } else {
            None
        }
    }
}

} // verus!
