use std::collections::BTreeMap;

use vstd::prelude::*;

use crate::error::WebKitError;

verus! {

/// Wraps a `WKWebExtensionPermission` name.
#[derive(Debug, Clone, PartialEq, Eq, Hash)]
pub struct WebExtensionPermission(String);

/// Wraps a `WKWebExtensionDataType` name.
#[derive(Debug, Clone, PartialEq, Eq, Hash)]
pub struct WebExtensionDataType(String);

/// Wraps a `WKWebExtensionContext` notification user-info key.
#[derive(Debug, Clone, PartialEq, Eq, Hash)]
pub struct WebExtensionContextNotificationUserInfoKey(String);

impl View for WebExtensionPermission {
    type V = Seq<char>;

    closed spec fn view(&self) -> Seq<char> {
        self.0@
    }
}

impl View for WebExtensionDataType {
    type V = Seq<char>;

    closed spec fn view(&self) -> Seq<char> {
        self.0@
    }
}

impl View for WebExtensionContextNotificationUserInfoKey {
    type V = Seq<char>;

    closed spec fn view(&self) -> Seq<char> {
        self.0@
    }
}

impl Default for WebExtensionPermission {
    fn default() -> (value: Self)
        ensures
            value@.len() == 0,
    {
        WebExtensionPermission(String::new())
    }
}

impl Default for WebExtensionDataType {
    fn default() -> (value: Self)
        ensures
            value@.len() == 0,
    {
        WebExtensionDataType(String::new())
    }
}

impl Default for WebExtensionContextNotificationUserInfoKey {
    fn default() -> (value: Self)
        ensures
            value@.len() == 0,
    {
        WebExtensionContextNotificationUserInfoKey(String::new())
    }
}

impl WebExtensionPermission {
    /// Creates a value for `WKWebExtension`: the permission named `value`.
    #[must_use]
    pub fn new(value: &str) -> (permission: Self)
        ensures
            permission@ == value@,
    {
        WebExtensionPermission(String::from_str(value))
    }

    /// Returns the corresponding value from `WKWebExtension`: the permission's name.
    #[must_use]
    pub fn as_str(&self) -> (name: &str)
        ensures
            name@ == self@,
    {
        self.0.as_str()
    }
}

impl AsRef<str> for WebExtensionPermission {
    fn as_ref(&self) -> (name: &str)
        ensures
            name@ == self@,
    {
        self.as_str()
    }
}

impl AsRef<str> for WebExtensionDataType {
    fn as_ref(&self) -> (name: &str)
        ensures
            name@ == self@,
    {
        self.as_str()
    }
}

impl AsRef<str> for WebExtensionContextNotificationUserInfoKey {
    fn as_ref(&self) -> (name: &str)
        ensures
            name@ == self@,
    {
        self.as_str()
    }
}

impl WebExtensionDataType {
    /// The name, as the map key that data records use for it.
    pub closed spec fn key(self) -> String {
        self.0
    }

    /// Creates a value for `WKWebExtension`: the data type named `value`.
    #[must_use]
    pub fn new(value: &str) -> (data_type: Self)
        ensures
            data_type@ == value@,
    {
        WebExtensionDataType(String::from_str(value))
    }

    /// Returns the corresponding value from `WKWebExtension`: the data type's name.
    #[must_use]
    pub fn as_str(&self) -> (name: &str)
        ensures
            name@ == self@,
            name@ == self.key()@,
    {
        self.0.as_str()
    }
}

impl WebExtensionContextNotificationUserInfoKey {
    /// Creates a value for `WKWebExtension`: the key named `value`.
    #[must_use]
    pub fn new(value: &str) -> (key: Self)
        ensures
            key@ == value@,
    {
        WebExtensionContextNotificationUserInfoKey(String::from_str(value))
    }

    /// Returns the corresponding value from `WKWebExtension`: the key's name.
    #[must_use]
    pub fn as_str(&self) -> (name: &str)
        ensures
            name@ == self@,
    {
        self.0.as_str()
    }
}

/// The names WebKit gives its web-extension constants (error domains, notification
/// names, user-info keys, permissions and data types), as the bridge reports them.
#[derive(Debug, Clone, PartialEq, Eq)]
pub struct WebExtensionConstants {
    /// The `web_extension_error_domain` name reported by the bridge.
    pub web_extension_error_domain: String,
    /// The `web_extension_context_error_domain` name reported by the bridge.
    pub web_extension_context_error_domain: String,
    /// The `web_extension_data_record_error_domain` name reported by the bridge.
    pub web_extension_data_record_error_domain: String,
    /// The `web_extension_match_pattern_error_domain` name reported by the bridge.
    pub web_extension_match_pattern_error_domain: String,
    /// The `web_extension_message_port_error_domain` name reported by the bridge.
    pub web_extension_message_port_error_domain: String,
    /// The `errors_did_update_notification` name reported by the bridge.
    pub errors_did_update_notification: String,
    /// The `permissions_were_granted_notification` name reported by the bridge.
    pub permissions_were_granted_notification: String,
    /// The `permissions_were_denied_notification` name reported by the bridge.
    pub permissions_were_denied_notification: String,
    /// The `granted_permissions_were_removed_notification` name reported by the bridge.
    pub granted_permissions_were_removed_notification: String,
    /// The `denied_permissions_were_removed_notification` name reported by the bridge.
    pub denied_permissions_were_removed_notification: String,
    /// The `permission_match_patterns_were_granted_notification` name reported by the bridge.
    pub permission_match_patterns_were_granted_notification: String,
    /// The `permission_match_patterns_were_denied_notification` name reported by the bridge.
    pub permission_match_patterns_were_denied_notification: String,
    /// The `granted_permission_match_patterns_were_removed_notification` name reported by the bridge.
    pub granted_permission_match_patterns_were_removed_notification: String,
    /// The `denied_permission_match_patterns_were_removed_notification` name reported by the bridge.
    pub denied_permission_match_patterns_were_removed_notification: String,
    /// The `notification_user_info_key_permissions` name reported by the bridge.
    pub notification_user_info_key_permissions: String,
    /// The `notification_user_info_key_match_patterns` name reported by the bridge.
    pub notification_user_info_key_match_patterns: String,
    /// The `permission_active_tab` name reported by the bridge.
    pub permission_active_tab: String,
    /// The `permission_alarms` name reported by the bridge.
    pub permission_alarms: String,
    /// The `permission_clipboard_write` name reported by the bridge.
    pub permission_clipboard_write: String,
    /// The `permission_context_menus` name reported by the bridge.
    pub permission_context_menus: String,
    /// The `permission_cookies` name reported by the bridge.
    pub permission_cookies: String,
    /// The `permission_declarative_net_request` name reported by the bridge.
    pub permission_declarative_net_request: String,
    /// The `permission_declarative_net_request_feedback` name reported by the bridge.
    pub permission_declarative_net_request_feedback: String,
    /// The `permission_declarative_net_request_with_host_access` name reported by the bridge.
    pub permission_declarative_net_request_with_host_access: String,
    /// The `permission_menus` name reported by the bridge.
    pub permission_menus: String,
    /// The `permission_native_messaging` name reported by the bridge.
    pub permission_native_messaging: String,
    /// The `permission_scripting` name reported by the bridge.
    pub permission_scripting: String,
    /// The `permission_storage` name reported by the bridge.
    pub permission_storage: String,
    /// The `permission_tabs` name reported by the bridge.
    pub permission_tabs: String,
    /// The `permission_unlimited_storage` name reported by the bridge.
    pub permission_unlimited_storage: String,
    /// The `permission_web_navigation` name reported by the bridge.
    pub permission_web_navigation: String,
    /// The `permission_web_request` name reported by the bridge.
    pub permission_web_request: String,
    /// The `data_type_local` name reported by the bridge.
    pub data_type_local: String,
    /// The `data_type_session` name reported by the bridge.
    pub data_type_session: String,
    /// The `data_type_synchronized` name reported by the bridge.
    pub data_type_synchronized: String,
}

impl WebExtensionPermission {
    /// Mirrors the corresponding `WKWebExtensionPermission` API: the `permission_active_tab` name among `constants`.
    #[must_use]
    pub fn active_tab(constants: &WebExtensionConstants) -> (value: Self)
        ensures
            value@ == constants.permission_active_tab@,
    {
        WebExtensionPermission(constants.permission_active_tab.clone())
    }

    /// Mirrors the corresponding `WKWebExtensionPermission` API: the `permission_alarms` name among `constants`.
    #[must_use]
    pub fn alarms(constants: &WebExtensionConstants) -> (value: Self)
        ensures
            value@ == constants.permission_alarms@,
    {
        WebExtensionPermission(constants.permission_alarms.clone())
    }

    /// Mirrors the corresponding `WKWebExtensionPermission` API: the `permission_clipboard_write` name among `constants`.
    #[must_use]
    pub fn clipboard_write(constants: &WebExtensionConstants) -> (value: Self)
        ensures
            value@ == constants.permission_clipboard_write@,
    {
        WebExtensionPermission(constants.permission_clipboard_write.clone())
    }

    /// Mirrors the corresponding `WKWebExtensionPermission` API: the `permission_context_menus` name among `constants`.
    #[must_use]
    pub fn context_menus(constants: &WebExtensionConstants) -> (value: Self)
        ensures
            value@ == constants.permission_context_menus@,
    {
        WebExtensionPermission(constants.permission_context_menus.clone())
    }

    /// Mirrors the corresponding `WKWebExtensionPermission` API: the `permission_cookies` name among `constants`.
    #[must_use]
    pub fn cookies(constants: &WebExtensionConstants) -> (value: Self)
        ensures
            value@ == constants.permission_cookies@,
    {
        WebExtensionPermission(constants.permission_cookies.clone())
    }

    /// Mirrors the corresponding `WKWebExtensionPermission` API: the `permission_declarative_net_request` name among `constants`.
    #[must_use]
    pub fn declarative_net_request(constants: &WebExtensionConstants) -> (value: Self)
        ensures
            value@ == constants.permission_declarative_net_request@,
    {
        WebExtensionPermission(constants.permission_declarative_net_request.clone())
    }

    /// Mirrors the corresponding `WKWebExtensionPermission` API: the `permission_declarative_net_request_feedback` name among `constants`.
    #[must_use]
    pub fn declarative_net_request_feedback(constants: &WebExtensionConstants) -> (value: Self)
        ensures
            value@ == constants.permission_declarative_net_request_feedback@,
    {
        WebExtensionPermission(constants.permission_declarative_net_request_feedback.clone())
    }

    /// Mirrors the corresponding `WKWebExtensionPermission` API: the `permission_declarative_net_request_with_host_access` name among `constants`.
    #[must_use]
    pub fn declarative_net_request_with_host_access(constants: &WebExtensionConstants) -> (value: Self)
        ensures
            value@ == constants.permission_declarative_net_request_with_host_access@,
    {
        WebExtensionPermission(constants.permission_declarative_net_request_with_host_access.clone())
    }

    /// Mirrors the corresponding `WKWebExtensionPermission` API: the `permission_menus` name among `constants`.
    #[must_use]
    pub fn menus(constants: &WebExtensionConstants) -> (value: Self)
        ensures
            value@ == constants.permission_menus@,
    {
        WebExtensionPermission(constants.permission_menus.clone())
    }

    /// Mirrors the corresponding `WKWebExtensionPermission` API: the `permission_native_messaging` name among `constants`.
    #[must_use]
    pub fn native_messaging(constants: &WebExtensionConstants) -> (value: Self)
        ensures
            value@ == constants.permission_native_messaging@,
    {
        WebExtensionPermission(constants.permission_native_messaging.clone())
    }

    /// Mirrors the corresponding `WKWebExtensionPermission` API: the `permission_scripting` name among `constants`.
    #[must_use]
    pub fn scripting(constants: &WebExtensionConstants) -> (value: Self)
        ensures
            value@ == constants.permission_scripting@,
    {
        WebExtensionPermission(constants.permission_scripting.clone())
    }

    /// Mirrors the corresponding `WKWebExtensionPermission` API: the `permission_storage` name among `constants`.
    #[must_use]
    pub fn storage(constants: &WebExtensionConstants) -> (value: Self)
        ensures
            value@ == constants.permission_storage@,
    {
        WebExtensionPermission(constants.permission_storage.clone())
    }

    /// Mirrors the corresponding `WKWebExtensionPermission` API: the `permission_tabs` name among `constants`.
    #[must_use]
    pub fn tabs(constants: &WebExtensionConstants) -> (value: Self)
        ensures
            value@ == constants.permission_tabs@,
    {
        WebExtensionPermission(constants.permission_tabs.clone())
    }

    /// Mirrors the corresponding `WKWebExtensionPermission` API: the `permission_unlimited_storage` name among `constants`.
    #[must_use]
    pub fn unlimited_storage(constants: &WebExtensionConstants) -> (value: Self)
        ensures
            value@ == constants.permission_unlimited_storage@,
    {
        WebExtensionPermission(constants.permission_unlimited_storage.clone())
    }

    /// Mirrors the corresponding `WKWebExtensionPermission` API: the `permission_web_navigation` name among `constants`.
    #[must_use]
    pub fn web_navigation(constants: &WebExtensionConstants) -> (value: Self)
        ensures
            value@ == constants.permission_web_navigation@,
    {
        WebExtensionPermission(constants.permission_web_navigation.clone())
    }

    /// Mirrors the corresponding `WKWebExtensionPermission` API: the `permission_web_request` name among `constants`.
    #[must_use]
    pub fn web_request(constants: &WebExtensionConstants) -> (value: Self)
        ensures
            value@ == constants.permission_web_request@,
    {
        WebExtensionPermission(constants.permission_web_request.clone())
    }

}

impl WebExtensionDataType {
    /// Mirrors the corresponding `WKWebExtensionDataType` API: the `data_type_local` name among `constants`.
    #[must_use]
    pub fn local(constants: &WebExtensionConstants) -> (value: Self)
        ensures
            value@ == constants.data_type_local@,
    {
        WebExtensionDataType(constants.data_type_local.clone())
    }

    /// Mirrors the corresponding `WKWebExtensionDataType` API: the `data_type_session` name among `constants`.
    #[must_use]
    pub fn session(constants: &WebExtensionConstants) -> (value: Self)
        ensures
            value@ == constants.data_type_session@,
    {
        WebExtensionDataType(constants.data_type_session.clone())
    }

    /// Mirrors the corresponding `WKWebExtensionDataType` API: the `data_type_synchronized` name among `constants`.
    #[must_use]
    pub fn synchronized(constants: &WebExtensionConstants) -> (value: Self)
        ensures
            value@ == constants.data_type_synchronized@,
    {
        WebExtensionDataType(constants.data_type_synchronized.clone())
    }

}

impl WebExtensionContextNotificationUserInfoKey {
    /// Mirrors the corresponding `WKWebExtensionContext` API: the `notification_user_info_key_permissions` name among `constants`.
    #[must_use]
    pub fn permissions(constants: &WebExtensionConstants) -> (value: Self)
        ensures
            value@ == constants.notification_user_info_key_permissions@,
    {
        WebExtensionContextNotificationUserInfoKey(constants.notification_user_info_key_permissions.clone())
    }

    /// Mirrors the corresponding `WKWebExtensionContext` API: the `notification_user_info_key_match_patterns` name among `constants`.
    #[must_use]
    pub fn match_patterns(constants: &WebExtensionConstants) -> (value: Self)
        ensures
            value@ == constants.notification_user_info_key_match_patterns@,
    {
        WebExtensionContextNotificationUserInfoKey(constants.notification_user_info_key_match_patterns.clone())
    }

}
impl WebExtensionError {
    /// Returns the corresponding value from `WKWebExtension`: its error domain, the
    /// `web_extension_error_domain` name among `constants`.
    #[must_use]
    pub fn domain(constants: &WebExtensionConstants) -> (domain: &str)
        ensures
            domain@ == constants.web_extension_error_domain@,
    {
        constants.web_extension_error_domain.as_str()
    }
}

impl WebExtensionContextError {
    /// Returns the corresponding value from `WKWebExtensionContext`: its error domain, the
    /// `web_extension_context_error_domain` name among `constants`.
    #[must_use]
    pub fn domain(constants: &WebExtensionConstants) -> (domain: &str)
        ensures
            domain@ == constants.web_extension_context_error_domain@,
    {
        constants.web_extension_context_error_domain.as_str()
    }
}

impl WebExtensionDataRecordError {
    /// Returns the corresponding value from `WKWebExtensionDataRecord`: its error domain, the
    /// `web_extension_data_record_error_domain` name among `constants`.
    #[must_use]
    pub fn domain(constants: &WebExtensionConstants) -> (domain: &str)
        ensures
            domain@ == constants.web_extension_data_record_error_domain@,
    {
        constants.web_extension_data_record_error_domain.as_str()
    }
}

impl WebExtensionMatchPatternError {
    /// Returns the corresponding value from `WKWebExtensionMatchPattern`: its error domain, the
    /// `web_extension_match_pattern_error_domain` name among `constants`.
    #[must_use]
    pub fn domain(constants: &WebExtensionConstants) -> (domain: &str)
        ensures
            domain@ == constants.web_extension_match_pattern_error_domain@,
    {
        constants.web_extension_match_pattern_error_domain.as_str()
    }
}

impl WebExtensionMessagePortError {
    /// Returns the corresponding value from `WKWebExtensionMessagePort`: its error domain, the
    /// `web_extension_message_port_error_domain` name among `constants`.
    #[must_use]
    pub fn domain(constants: &WebExtensionConstants) -> (domain: &str)
        ensures
            domain@ == constants.web_extension_message_port_error_domain@,
    {
        constants.web_extension_message_port_error_domain.as_str()
    }
}
/// Wraps `WKWebExtension` error codes.
#[derive(Debug, Clone, Copy, PartialEq, Eq, Structural)]
pub enum WebExtensionError {
    /// Mirrors the `Unknown` case used by `WKWebExtension`.
    Unknown,
    /// Mirrors the `ResourceNotFound` case used by `WKWebExtension`.
    ResourceNotFound,
    /// Mirrors the `InvalidResourceCodeSignature` case used by `WKWebExtension`.
    InvalidResourceCodeSignature,
    /// Mirrors the `InvalidManifest` case used by `WKWebExtension`.
    InvalidManifest,
    /// Mirrors the `UnsupportedManifestVersion` case used by `WKWebExtension`.
    UnsupportedManifestVersion,
    /// Mirrors the `InvalidManifestEntry` case used by `WKWebExtension`.
    InvalidManifestEntry,
    /// Mirrors the `InvalidDeclarativeNetRequestEntry` case used by `WKWebExtension`.
    InvalidDeclarativeNetRequestEntry,
    /// Mirrors the `InvalidBackgroundPersistence` case used by `WKWebExtension`.
    InvalidBackgroundPersistence,
    /// Mirrors the `InvalidArchive` case used by `WKWebExtension`.
    InvalidArchive,
}

/// Wraps `WKWebExtensionContext` error codes.
#[derive(Debug, Clone, Copy, PartialEq, Eq, Structural)]
pub enum WebExtensionContextError {
    /// Mirrors the `Unknown` case used by `WKWebExtensionContext`.
    Unknown,
    /// Mirrors the `AlreadyLoaded` case used by `WKWebExtensionContext`.
    AlreadyLoaded,
    /// Mirrors the `NotLoaded` case used by `WKWebExtensionContext`.
    NotLoaded,
    /// Mirrors the `BaseUrlAlreadyInUse` case used by `WKWebExtensionContext`.
    BaseUrlAlreadyInUse,
    /// Mirrors the `NoBackgroundContent` case used by `WKWebExtensionContext`.
    NoBackgroundContent,
    /// Mirrors the `BackgroundContentFailedToLoad` case used by `WKWebExtensionContext`.
    BackgroundContentFailedToLoad,
}

/// Wraps `WKWebExtensionDataRecord` error codes.
#[derive(Debug, Clone, Copy, PartialEq, Eq, Structural)]
pub enum WebExtensionDataRecordError {
    /// Mirrors the `Unknown` case used by `WKWebExtensionDataRecord`.
    Unknown,
    /// Mirrors the `LocalStorageFailed` case used by `WKWebExtensionDataRecord`.
    LocalStorageFailed,
    /// Mirrors the `SessionStorageFailed` case used by `WKWebExtensionDataRecord`.
    SessionStorageFailed,
    /// Mirrors the `SynchronizedStorageFailed` case used by `WKWebExtensionDataRecord`.
    SynchronizedStorageFailed,
}

/// Wraps `WKWebExtensionMatchPattern` error codes.
#[derive(Debug, Clone, Copy, PartialEq, Eq, Structural)]
pub enum WebExtensionMatchPatternError {
    /// Mirrors the `Unknown` case used by `WKWebExtensionMatchPattern`.
    Unknown,
    /// Mirrors the `InvalidScheme` case used by `WKWebExtensionMatchPattern`.
    InvalidScheme,
    /// Mirrors the `InvalidHost` case used by `WKWebExtensionMatchPattern`.
    InvalidHost,
    /// Mirrors the `InvalidPath` case used by `WKWebExtensionMatchPattern`.
    InvalidPath,
}

/// Wraps `WKWebExtensionMessagePort` error codes.
#[derive(Debug, Clone, Copy, PartialEq, Eq, Structural)]
pub enum WebExtensionMessagePortError {
    /// Mirrors the `Unknown` case used by `WKWebExtensionMessagePort`.
    Unknown,
    /// Mirrors the `NotConnected` case used by `WKWebExtensionMessagePort`.
    NotConnected,
    /// Mirrors the `MessageInvalid` case used by `WKWebExtensionMessagePort`.
    MessageInvalid,
}

/// Wraps `WKWebExtensionContext` permission states.
#[derive(Debug, Clone, Copy, PartialEq, Eq, Structural)]
pub enum WebExtensionContextPermissionStatus {
    /// Mirrors the `DeniedExplicitly` case used by `WKWebExtensionContext`.
    DeniedExplicitly,
    /// Mirrors the `DeniedImplicitly` case used by `WKWebExtensionContext`.
    DeniedImplicitly,
    /// Mirrors the `RequestedImplicitly` case used by `WKWebExtensionContext`.
    RequestedImplicitly,
    /// Mirrors the `Unknown` case used by `WKWebExtensionContext`.
    Unknown,
    /// Mirrors the `RequestedExplicitly` case used by `WKWebExtensionContext`.
    RequestedExplicitly,
    /// Mirrors the `GrantedImplicitly` case used by `WKWebExtensionContext`.
    GrantedImplicitly,
    /// Mirrors the `GrantedExplicitly` case used by `WKWebExtensionContext`.
    GrantedExplicitly,
}

impl WebExtensionContextPermissionStatus {
    /// The raw value of a state: -3 to 3 in declaration order, `Unknown` being 0.
    pub open spec fn raw_value(self) -> i64 {
        match self {
            WebExtensionContextPermissionStatus::DeniedExplicitly => -3i64,
            WebExtensionContextPermissionStatus::DeniedImplicitly => -2i64,
            WebExtensionContextPermissionStatus::RequestedImplicitly => -1i64,
            WebExtensionContextPermissionStatus::Unknown => 0i64,
            WebExtensionContextPermissionStatus::RequestedExplicitly => 1i64,
            WebExtensionContextPermissionStatus::GrantedImplicitly => 2i64,
            WebExtensionContextPermissionStatus::GrantedExplicitly => 3i64,
        }
    }

    /// The state a raw value decodes to: -3 to 3 name their states, anything else is
    /// `Unknown`.
    pub open spec fn from_raw_value(raw: i64) -> Self {
        if raw == -3 {
            WebExtensionContextPermissionStatus::DeniedExplicitly
        } else if raw == -2 {
            WebExtensionContextPermissionStatus::DeniedImplicitly
        } else if raw == -1 {
            WebExtensionContextPermissionStatus::RequestedImplicitly
        } else if raw == 1 {
            WebExtensionContextPermissionStatus::RequestedExplicitly
        } else if raw == 2 {
            WebExtensionContextPermissionStatus::GrantedImplicitly
        } else if raw == 3 {
            WebExtensionContextPermissionStatus::GrantedExplicitly
        } else {
            WebExtensionContextPermissionStatus::Unknown
        }
    }

    /// The raw value the bridge takes for a state.
    #[must_use]
    pub fn as_raw(self) -> (raw: i64)
        ensures
            raw == self.raw_value(),
    {
        match self {
            WebExtensionContextPermissionStatus::DeniedExplicitly => -3,
            WebExtensionContextPermissionStatus::DeniedImplicitly => -2,
            WebExtensionContextPermissionStatus::RequestedImplicitly => -1,
            WebExtensionContextPermissionStatus::Unknown => 0,
            WebExtensionContextPermissionStatus::RequestedExplicitly => 1,
            WebExtensionContextPermissionStatus::GrantedImplicitly => 2,
            WebExtensionContextPermissionStatus::GrantedExplicitly => 3,
        }
    }

    /// The state a raw value from the bridge stands for.
    #[must_use]
    pub fn from_raw(raw: i64) -> (status: Self)
        ensures
            status == Self::from_raw_value(raw),
    {
        match raw {
            -3 => WebExtensionContextPermissionStatus::DeniedExplicitly,
            -2 => WebExtensionContextPermissionStatus::DeniedImplicitly,
            -1 => WebExtensionContextPermissionStatus::RequestedImplicitly,
            1 => WebExtensionContextPermissionStatus::RequestedExplicitly,
            2 => WebExtensionContextPermissionStatus::GrantedImplicitly,
            3 => WebExtensionContextPermissionStatus::GrantedExplicitly,
            _ => WebExtensionContextPermissionStatus::Unknown,
        }
    }
}

/// A permission state's raw value decodes back to the state.
pub proof fn lemma_permission_status_round_trip(status: WebExtensionContextPermissionStatus)
    ensures
        WebExtensionContextPermissionStatus::from_raw_value(status.raw_value()) == status,
{
}

/// WebKit's `WKWebExtensionContext.PermissionStatus` numbering: the states are numbered
/// -3 to 3 in declaration order, `Unknown` being 0 (so `RequestedExplicitly` 1,
/// `GrantedImplicitly` 2, `GrantedExplicitly` 3); each of those raw values decodes to
/// its state, any other decodes to `Unknown`, and no two states share a raw value.
pub proof fn lemma_permission_status_values(
    a: WebExtensionContextPermissionStatus,
    b: WebExtensionContextPermissionStatus,
    raw: i64,
)
    ensures
        WebExtensionContextPermissionStatus::DeniedExplicitly.raw_value() == -3,
        WebExtensionContextPermissionStatus::from_raw_value(-3i64) == WebExtensionContextPermissionStatus::DeniedExplicitly,
        WebExtensionContextPermissionStatus::DeniedImplicitly.raw_value() == -2,
        WebExtensionContextPermissionStatus::from_raw_value(-2i64) == WebExtensionContextPermissionStatus::DeniedImplicitly,
        WebExtensionContextPermissionStatus::RequestedImplicitly.raw_value() == -1,
        WebExtensionContextPermissionStatus::from_raw_value(-1i64) == WebExtensionContextPermissionStatus::RequestedImplicitly,
        WebExtensionContextPermissionStatus::Unknown.raw_value() == 0,
        WebExtensionContextPermissionStatus::from_raw_value(0i64) == WebExtensionContextPermissionStatus::Unknown,
        WebExtensionContextPermissionStatus::RequestedExplicitly.raw_value() == 1,
        WebExtensionContextPermissionStatus::from_raw_value(1i64) == WebExtensionContextPermissionStatus::RequestedExplicitly,
        WebExtensionContextPermissionStatus::GrantedImplicitly.raw_value() == 2,
        WebExtensionContextPermissionStatus::from_raw_value(2i64) == WebExtensionContextPermissionStatus::GrantedImplicitly,
        WebExtensionContextPermissionStatus::GrantedExplicitly.raw_value() == 3,
        WebExtensionContextPermissionStatus::from_raw_value(3i64) == WebExtensionContextPermissionStatus::GrantedExplicitly,
        -3 <= a.raw_value() <= 3,
        (raw < -3 || raw > 3) ==> WebExtensionContextPermissionStatus::from_raw_value(raw)
            == WebExtensionContextPermissionStatus::Unknown,
        a.raw_value() == b.raw_value() ==> a == b,
{
}

/// Wraps `WKWebExtensionWindow` window types.
#[derive(Debug, Clone, Copy, PartialEq, Eq, Structural)]
pub enum WebExtensionWindowType {
    /// Mirrors the `Normal` case used by `WKWebExtensionWindow`.
    Normal,
    /// Mirrors the `Popup` case used by `WKWebExtensionWindow`.
    Popup,
}

/// Wraps `WKWebExtensionWindow` window states.
#[derive(Debug, Clone, Copy, PartialEq, Eq, Structural)]
pub enum WebExtensionWindowState {
    /// Mirrors the `Normal` case used by `WKWebExtensionWindow`.
    Normal,
    /// Mirrors the `Minimized` case used by `WKWebExtensionWindow`.
    Minimized,
    /// Mirrors the `Maximized` case used by `WKWebExtensionWindow`.
    Maximized,
    /// Mirrors the `Fullscreen` case used by `WKWebExtensionWindow`.
    Fullscreen,
}

/// The error a web-extension delegate method gives when it has no implementation:
/// `Unsupported`, naming the method.
pub fn unsupported_web_extension_delegate_method(method: &str) -> (error: WebKitError)
    ensures
        error matches WebKitError::Unsupported(m) && m@ == "web extension delegate method `"@
            + method@ + "` is not implemented"@,
{
    let mut message = String::from_str("web extension delegate method `");
    message.append(method);
    message.append("` is not implemented");
    WebKitError::Unsupported(message)
}

/// Wraps a `WKWebExtensionMatchPattern` flag set held as bits.
#[derive(Debug, Clone, Copy, PartialEq, Eq, Hash, Structural)]
pub struct WebExtensionMatchPatternOptions(u64);

impl View for WebExtensionMatchPatternOptions {
    type V = u64;

    closed spec fn view(&self) -> u64 {
        self.0
    }
}

/// A flag set is its bits: two sets with the same bits are the same set, so
/// `from_bits(a.bits())` gives `a` back and `from_bits(0)`, `none()` and `default()`
/// give the same set.
pub proof fn lemma_match_pattern_options_same_bits(a: WebExtensionMatchPatternOptions, b: WebExtensionMatchPatternOptions)
    ensures
        a@ == b@ <==> a == b,
{
}

impl Default for WebExtensionMatchPatternOptions {
    fn default() -> (flags: Self)
        ensures
            flags@ == 0,
    {
        WebExtensionMatchPatternOptions(0)
    }
}

impl WebExtensionMatchPatternOptions {
    /// Mirrors the `NONE` constant used by `WKWebExtensionMatchPattern`: no flag set.
    #[must_use]
    pub fn none() -> (flags: Self)
        ensures
            flags@ == 0,
    {
        WebExtensionMatchPatternOptions(0)
    }

    /// Mirrors the `IGNORE_SCHEMES` constant used by `WKWebExtensionMatchPattern`: bit 0.
    #[must_use]
    pub fn ignore_schemes() -> (flags: Self)
        ensures
            flags@ == 1,
    {
        WebExtensionMatchPatternOptions(1)
    }

    /// Mirrors the `IGNORE_PATHS` constant used by `WKWebExtensionMatchPattern`: bit 1.
    #[must_use]
    pub fn ignore_paths() -> (flags: Self)
        ensures
            flags@ == 2,
    {
        WebExtensionMatchPatternOptions(2)
    }

    /// Mirrors the `MATCH_BIDIRECTIONALLY` constant used by `WKWebExtensionMatchPattern`: bit 2.
    #[must_use]
    pub fn match_bidirectionally() -> (flags: Self)
        ensures
            flags@ == 4,
    {
        WebExtensionMatchPatternOptions(4)
    }

    /// Creates a value for `WKWebExtensionMatchPattern`.
    #[must_use]
    pub fn from_bits(bits: u64) -> (flags: Self)
        ensures
            flags@ == bits,
    {
        WebExtensionMatchPatternOptions(bits)
    }

    /// Returns the corresponding value from `WKWebExtensionMatchPattern`.
    #[must_use]
    pub fn bits(self) -> (bits: u64)
        ensures
            bits == self@,
    {
        self.0
    }

    /// Returns whether this `WKWebExtensionMatchPattern` value contains the provided flags.
    #[must_use]
    pub fn contains(self, other: Self) -> (found: bool)
        ensures
            found == (self@ & other@ == other@),
    {
        (self.0 & other.0) == other.0
    }
}

impl core::ops::BitOr for WebExtensionMatchPatternOptions {
    type Output = Self;

    fn bitor(self, rhs: Self) -> (union: Self)
        ensures
            union@ == self@ | rhs@,
    {
        WebExtensionMatchPatternOptions(self.0 | rhs.0)
    }
}

impl vstd::std_specs::ops::BitOrSpecImpl for WebExtensionMatchPatternOptions {
    open spec fn obeys_bitor_spec() -> bool {
        true
    }

    open spec fn bitor_req(self, rhs: Self) -> bool {
        true
    }

    closed spec fn bitor_spec(self, rhs: Self) -> Self {
        WebExtensionMatchPatternOptions(self.0 | rhs.0)
    }
}

impl core::ops::BitOrAssign for WebExtensionMatchPatternOptions {
    fn bitor_assign(&mut self, rhs: Self)
        ensures
            final(self)@ == old(self)@ | rhs@,
    {
        self.0 = self.0 | rhs.0;
    }
}

/// Wraps a `WKWebExtensionTab` flag set held as bits.
#[derive(Debug, Clone, Copy, PartialEq, Eq, Hash, Structural)]
pub struct WebExtensionTabChangedProperties(u64);

impl View for WebExtensionTabChangedProperties {
    type V = u64;

    closed spec fn view(&self) -> u64 {
        self.0
    }
}

/// A flag set is its bits: two sets with the same bits are the same set, so
/// `from_bits(a.bits())` gives `a` back and `from_bits(0)`, `none()` and `default()`
/// give the same set.
pub proof fn lemma_tab_changed_properties_same_bits(a: WebExtensionTabChangedProperties, b: WebExtensionTabChangedProperties)
    ensures
        a@ == b@ <==> a == b,
{
}

impl Default for WebExtensionTabChangedProperties {
    fn default() -> (flags: Self)
        ensures
            flags@ == 0,
    {
        WebExtensionTabChangedProperties(0)
    }
}

impl WebExtensionTabChangedProperties {
    /// Mirrors the `NONE` constant used by `WKWebExtensionTab`: no flag set.
    #[must_use]
    pub fn none() -> (flags: Self)
        ensures
            flags@ == 0,
    {
        WebExtensionTabChangedProperties(0)
    }

    /// Mirrors the `LOADING` constant used by `WKWebExtensionTab`: bit 1.
    #[must_use]
    pub fn loading() -> (flags: Self)
        ensures
            flags@ == 2,
    {
        WebExtensionTabChangedProperties(2)
    }

    /// Mirrors the `MUTED` constant used by `WKWebExtensionTab`: bit 2.
    #[must_use]
    pub fn muted() -> (flags: Self)
        ensures
            flags@ == 4,
    {
        WebExtensionTabChangedProperties(4)
    }

    /// Mirrors the `PINNED` constant used by `WKWebExtensionTab`: bit 3.
    #[must_use]
    pub fn pinned() -> (flags: Self)
        ensures
            flags@ == 8,
    {
        WebExtensionTabChangedProperties(8)
    }

    /// Mirrors the `PLAYING_AUDIO` constant used by `WKWebExtensionTab`: bit 4.
    #[must_use]
    pub fn playing_audio() -> (flags: Self)
        ensures
            flags@ == 16,
    {
        WebExtensionTabChangedProperties(16)
    }

    /// Mirrors the `READER_MODE` constant used by `WKWebExtensionTab`: bit 5.
    #[must_use]
    pub fn reader_mode() -> (flags: Self)
        ensures
            flags@ == 32,
    {
        WebExtensionTabChangedProperties(32)
    }

    /// Mirrors the `SIZE` constant used by `WKWebExtensionTab`: bit 6.
    #[must_use]
    pub fn size() -> (flags: Self)
        ensures
            flags@ == 64,
    {
        WebExtensionTabChangedProperties(64)
    }

    /// Mirrors the `TITLE` constant used by `WKWebExtensionTab`: bit 7.
    #[must_use]
    pub fn title() -> (flags: Self)
        ensures
            flags@ == 128,
    {
        WebExtensionTabChangedProperties(128)
    }

    /// Mirrors the `URL` constant used by `WKWebExtensionTab`: bit 8.
    #[must_use]
    pub fn url() -> (flags: Self)
        ensures
            flags@ == 256,
    {
        WebExtensionTabChangedProperties(256)
    }

    /// Mirrors the `ZOOM_FACTOR` constant used by `WKWebExtensionTab`: bit 9.
    #[must_use]
    pub fn zoom_factor() -> (flags: Self)
        ensures
            flags@ == 512,
    {
        WebExtensionTabChangedProperties(512)
    }

    /// Creates a value for `WKWebExtensionTab`.
    #[must_use]
    pub fn from_bits(bits: u64) -> (flags: Self)
        ensures
            flags@ == bits,
    {
        WebExtensionTabChangedProperties(bits)
    }

    /// Returns the corresponding value from `WKWebExtensionTab`.
    #[must_use]
    pub fn bits(self) -> (bits: u64)
        ensures
            bits == self@,
    {
        self.0
    }

    /// Returns whether this `WKWebExtensionTab` value contains the provided flags.
    #[must_use]
    pub fn contains(self, other: Self) -> (found: bool)
        ensures
            found == (self@ & other@ == other@),
    {
        (self.0 & other.0) == other.0
    }
}

impl core::ops::BitOr for WebExtensionTabChangedProperties {
    type Output = Self;

    fn bitor(self, rhs: Self) -> (union: Self)
        ensures
            union@ == self@ | rhs@,
    {
        WebExtensionTabChangedProperties(self.0 | rhs.0)
    }
}

impl vstd::std_specs::ops::BitOrSpecImpl for WebExtensionTabChangedProperties {
    open spec fn obeys_bitor_spec() -> bool {
        true
    }

    open spec fn bitor_req(self, rhs: Self) -> bool {
        true
    }

    closed spec fn bitor_spec(self, rhs: Self) -> Self {
        WebExtensionTabChangedProperties(self.0 | rhs.0)
    }
}

impl core::ops::BitOrAssign for WebExtensionTabChangedProperties {
    fn bitor_assign(&mut self, rhs: Self)
        ensures
            final(self)@ == old(self)@ | rhs@,
    {
        self.0 = self.0 | rhs.0;
    }
}
/// Result payload returned by permission-prompt style web extension delegate methods.
#[derive(Debug, Clone, PartialEq, Eq)]
pub struct WebExtensionGrant<T> {
    /// Mirrors the `allowed` value exposed by `WKWebExtensionContext`.
    pub allowed: Vec<T>,
    /// Mirrors the `expiration_date` value exposed by `WKWebExtensionContext`.
    pub expiration_date: Option<String>,
}

impl<T> Default for WebExtensionGrant<T> {
    /// Nothing allowed, no expiry.
    fn default() -> (grant: Self)
        ensures
            grant.allowed@.len() == 0,
            grant.expiration_date is None,
    {
        WebExtensionGrant { allowed: Vec::new(), expiration_date: None }
    }
}

/// PNG snapshot bytes returned by `WKWebExtensionTab::takeSnapshot`.
#[derive(Debug, Clone, PartialEq, Eq)]
pub struct WebExtensionTabSnapshot {
    /// Mirrors the `png_data` value exposed by `WKWebExtensionTab`.
    pub png_data: Vec<u8>,
}

impl Default for WebExtensionTabSnapshot {
    fn default() -> (snapshot: Self)
        ensures
            snapshot.png_data@.len() == 0,
    {
        WebExtensionTabSnapshot { png_data: Vec::new() }
    }
}

/// Wraps `NSError`.
#[derive(Debug, Clone, PartialEq, Eq)]
pub struct NSErrorInfo {
    /// Mirrors the `domain` value exposed by `NSError`.
    pub domain: String,
    /// Mirrors the `code` value exposed by `NSError`.
    pub code: i64,
    /// Mirrors the `description` value exposed by `NSError`.
    pub description: String,
}

impl Default for NSErrorInfo {
    fn default() -> (info: Self)
        ensures
            info.domain@.len() == 0,
            info.code == 0,
            info.description@.len() == 0,
    {
        NSErrorInfo { domain: String::new(), code: 0, description: String::new() }
    }
}

/// Captures data returned by `WKWebExtensionMatchPattern`.
#[derive(Debug, Clone, PartialEq, Eq)]
pub struct WebExtensionMatchPatternSummary {
    /// Mirrors the `string` value exposed by `WKWebExtensionMatchPattern`.
    pub string: String,
    /// Mirrors the `scheme` value exposed by `WKWebExtensionMatchPattern`.
    pub scheme: Option<String>,
    /// Mirrors the `host` value exposed by `WKWebExtensionMatchPattern`.
    pub host: Option<String>,
    /// Mirrors the `path` value exposed by `WKWebExtensionMatchPattern`.
    pub path: Option<String>,
    /// Mirrors the `matches_all_urls` value exposed by `WKWebExtensionMatchPattern`.
    pub matches_all_urls: bool,
    /// Mirrors the `matches_all_hosts` value exposed by `WKWebExtensionMatchPattern`.
    pub matches_all_hosts: bool,
}

impl Default for WebExtensionMatchPatternSummary {
    fn default() -> (summary: Self)
        ensures
            summary.string@.len() == 0,
            summary.scheme is None,
            summary.host is None,
            summary.path is None,
            !summary.matches_all_urls,
            !summary.matches_all_hosts,
    {
        WebExtensionMatchPatternSummary {
            string: String::new(),
            scheme: None,
            host: None,
            path: None,
            matches_all_urls: false,
            matches_all_hosts: false,
        }
    }
}

/// Captures data returned by `WKWebExtensionContext`.
#[derive(Debug, Clone, PartialEq, Eq)]
pub struct WebExtensionContextSummary {
    /// Mirrors the `errors` value exposed by `WKWebExtensionContext`.
    pub errors: Vec<NSErrorInfo>,
    /// Mirrors the `loaded` value exposed by `WKWebExtensionContext`.
    pub loaded: bool,
    /// Mirrors the `base_url` value exposed by `WKWebExtensionContext`.
    pub base_url: Option<String>,
    /// Mirrors the `unique_identifier` value exposed by `WKWebExtensionContext`.
    pub unique_identifier: String,
    /// Mirrors the `inspectable` value exposed by `WKWebExtensionContext`.
    pub inspectable: bool,
    /// Mirrors the `inspection_name` value exposed by `WKWebExtensionContext`.
    pub inspection_name: Option<String>,
    /// Mirrors the `unsupported_apis` value exposed by `WKWebExtensionContext`.
    pub unsupported_apis: Vec<String>,
    /// Mirrors the `options_page_url` value exposed by `WKWebExtensionContext`.
    pub options_page_url: Option<String>,
    /// Mirrors the `override_new_tab_page_url` value exposed by `WKWebExtensionContext`.
    pub override_new_tab_page_url: Option<String>,
    /// Mirrors the `has_requested_optional_access_to_all_hosts` value exposed by `WKWebExtensionContext`.
    pub has_requested_optional_access_to_all_hosts: bool,
    /// Mirrors the `has_access_to_private_data` value exposed by `WKWebExtensionContext`.
    pub has_access_to_private_data: bool,
    /// Mirrors the `current_permissions` value exposed by `WKWebExtensionContext`.
    pub current_permissions: Vec<WebExtensionPermission>,
    /// Mirrors the `current_permission_match_patterns` value exposed by `WKWebExtensionContext`.
    pub current_permission_match_patterns: Vec<String>,
    /// Mirrors the `has_access_to_all_urls` value exposed by `WKWebExtensionContext`.
    pub has_access_to_all_urls: bool,
    /// Mirrors the `has_access_to_all_hosts` value exposed by `WKWebExtensionContext`.
    pub has_access_to_all_hosts: bool,
    /// Mirrors the `has_injected_content` value exposed by `WKWebExtensionContext`.
    pub has_injected_content: bool,
    /// Mirrors the `has_content_modification_rules` value exposed by `WKWebExtensionContext`.
    pub has_content_modification_rules: bool,
    /// Mirrors the `webview_configuration_available` value exposed by `WKWebExtensionContext`.
    pub webview_configuration_available: bool,
}

impl Default for WebExtensionContextSummary {
    /// Every list empty, every flag `false`, every optional field absent, an empty identifier.
    fn default() -> (summary: Self)
        ensures
            summary.errors@.len() == 0,
            !summary.loaded,
            summary.base_url is None,
            summary.unique_identifier@.len() == 0,
            !summary.inspectable,
            summary.inspection_name is None,
            summary.unsupported_apis@.len() == 0,
            summary.options_page_url is None,
            summary.override_new_tab_page_url is None,
            !summary.has_requested_optional_access_to_all_hosts,
            !summary.has_access_to_private_data,
            summary.current_permissions@.len() == 0,
            summary.current_permission_match_patterns@.len() == 0,
            !summary.has_access_to_all_urls,
            !summary.has_access_to_all_hosts,
            !summary.has_injected_content,
            !summary.has_content_modification_rules,
            !summary.webview_configuration_available,
    {
        WebExtensionContextSummary {
            errors: Vec::new(),
            loaded: false,
            base_url: None,
            unique_identifier: String::new(),
            inspectable: false,
            inspection_name: None,
            unsupported_apis: Vec::new(),
            options_page_url: None,
            override_new_tab_page_url: None,
            has_requested_optional_access_to_all_hosts: false,
            has_access_to_private_data: false,
            current_permissions: Vec::new(),
            current_permission_match_patterns: Vec::new(),
            has_access_to_all_urls: false,
            has_access_to_all_hosts: false,
            has_injected_content: false,
            has_content_modification_rules: false,
            webview_configuration_available: false,
        }
    }
}

/// Wraps `WKWebExtensionAction`.
#[derive(Debug, Clone, PartialEq, Eq)]
pub struct WebExtensionAction {
    /// Mirrors the `label` value exposed by `WKWebExtensionAction`.
    pub label: String,
    /// Mirrors the `badge_text` value exposed by `WKWebExtensionAction`.
    pub badge_text: String,
    /// Mirrors the `has_unread_badge_text` value exposed by `WKWebExtensionAction`.
    pub has_unread_badge_text: bool,
    /// Mirrors the `inspection_name` value exposed by `WKWebExtensionAction`.
    pub inspection_name: Option<String>,
    /// Mirrors the `enabled` value exposed by `WKWebExtensionAction`.
    pub enabled: bool,
    /// Mirrors the `presents_popup` value exposed by `WKWebExtensionAction`.
    pub presents_popup: bool,
    /// Mirrors the `associated_tab_available` value exposed by `WKWebExtensionAction`.
    pub associated_tab_available: bool,
    /// Mirrors the `popup_webview_available` value exposed by `WKWebExtensionAction`.
    pub popup_webview_available: bool,
}

impl Default for WebExtensionAction {
    fn default() -> (action: Self)
        ensures
            action.label@.len() == 0,
            action.badge_text@.len() == 0,
            !action.has_unread_badge_text,
            action.inspection_name is None,
            !action.enabled,
            !action.presents_popup,
            !action.associated_tab_available,
            !action.popup_webview_available,
    {
        WebExtensionAction {
            label: String::new(),
            badge_text: String::new(),
            has_unread_badge_text: false,
            inspection_name: None,
            enabled: false,
            presents_popup: false,
            associated_tab_available: false,
            popup_webview_available: false,
        }
    }
}

/// Wraps `WKWebExtensionCommand`.
#[derive(Debug, Clone, PartialEq, Eq)]
pub struct WebExtensionCommand {
    /// Mirrors the `identifier` value exposed by `WKWebExtensionCommand`.
    pub identifier: String,
    /// Mirrors the `title` value exposed by `WKWebExtensionCommand`.
    pub title: String,
    /// Mirrors the `activation_key` value exposed by `WKWebExtensionCommand`.
    pub activation_key: Option<String>,
    /// Mirrors the `modifier_flags` value exposed by `WKWebExtensionCommand`.
    pub modifier_flags: u64,
}

impl Default for WebExtensionCommand {
    fn default() -> (command: Self)
        ensures
            command.identifier@.len() == 0,
            command.title@.len() == 0,
            command.activation_key is None,
            command.modifier_flags == 0,
    {
        WebExtensionCommand {
            identifier: String::new(),
            title: String::new(),
            activation_key: None,
            modifier_flags: 0,
        }
    }
}

/// Wraps `WKWebExtensionDataRecord`.
#[derive(Debug, Clone, PartialEq, Eq)]
pub struct WebExtensionDataRecord {
    /// Mirrors the `display_name` value exposed by `WKWebExtensionDataRecord`.
    pub display_name: String,
    /// Mirrors the `unique_identifier` value exposed by `WKWebExtensionDataRecord`.
    pub unique_identifier: String,
    /// Mirrors the `contained_data_types` value exposed by `WKWebExtensionDataRecord`.
    pub contained_data_types: Vec<WebExtensionDataType>,
    /// Mirrors the `errors` value exposed by `WKWebExtensionDataRecord`.
    pub errors: Vec<NSErrorInfo>,
    /// Mirrors the `total_size_in_bytes` value exposed by `WKWebExtensionDataRecord`.
    pub total_size_in_bytes: u64,
    /// Mirrors the `size_in_bytes_by_type` value exposed by `WKWebExtensionDataRecord`.
    pub size_in_bytes_by_type: BTreeMap<String, u64>,
}

impl Default for WebExtensionDataRecord {
    fn default() -> (record: Self)
        ensures
            record.display_name@.len() == 0,
            record.unique_identifier@.len() == 0,
            record.contained_data_types@.len() == 0,
            record.errors@.len() == 0,
            record.total_size_in_bytes == 0,
            record.size_in_bytes_by_type@ == Map::<String, u64>::empty(),
            size_texts(record.size_in_bytes_by_type) == Map::<Seq<char>, u64>::empty(),
    {
        WebExtensionDataRecord {
            display_name: String::new(),
            unique_identifier: String::new(),
            contained_data_types: Vec::new(),
            errors: Vec::new(),
            total_size_in_bytes: 0,
            size_in_bytes_by_type: empty_sizes(),
        }
    }
}

/// What a size map holds, by the text of each key: the size recorded for each data
/// type name. `String` keys are ordered, and so told apart, by their text.
pub uninterp spec fn size_texts(sizes: BTreeMap<String, u64>) -> Map<Seq<char>, u64>;

/// A size map that holds nothing.
///
/// Calls `BTreeMap::new`, which std documents as making an empty map.
#[verifier::external_body]
fn empty_sizes() -> (sizes: BTreeMap<String, u64>)
    ensures
        size_texts(sizes).dom() == Set::<Seq<char>>::empty(),
        sizes@.dom() == Set::<String>::empty(),
{
    BTreeMap::new()
}

/// The size recorded under the name `key`, if any.
///
/// Calls `BTreeMap::get` with the key borrowed as `&str`, which std documents as
/// giving the value of the entry whose key equals `key` (`String` orders and compares
/// as its text), copying the value out.
#[verifier::external_body]
fn size_for_name(sizes: &BTreeMap<String, u64>, key: &str) -> (size: Option<u64>)
    ensures
        size is Some <==> size_texts(*sizes).contains_key(key@),
        size matches Some(s) ==> size_texts(*sizes)[key@] == s,
{
    sizes.get(key).copied()
}

/// The bytes a record holds for each of `data_types` in turn, added up: a type the
/// record has no size for adds nothing, and a type named twice is counted twice.
pub open spec fn size_of_types(sizes: Map<Seq<char>, u64>, data_types: Seq<WebExtensionDataType>) -> int
    decreases data_types.len(),
{
    if data_types.len() == 0 {
        0
    } else {
        let key = data_types.last()@;
        size_of_types(sizes, data_types.drop_last()) + if sizes.contains_key(key) {
            sizes[key] as int
        } else {
            0
        }
    }
}

impl WebExtensionDataRecord {
    /// Returns the corresponding value from `WKWebExtensionDataRecord`: the bytes held
    /// for the given data types, added up, wrapping around past `u64::MAX`; so exactly
    /// the sum wherever it fits in a `u64`.
    #[must_use]
    pub fn size_in_bytes_of_types(&self, data_types: &[WebExtensionDataType]) -> (total: u64)
        ensures
            total as int == size_of_types(size_texts(self.size_in_bytes_by_type), data_types@)
                % 0x1_0000_0000_0000_0000,
    {
        let ghost sizes = size_texts(self.size_in_bytes_by_type);
        let mut total: u64 = 0;
        let mut i: usize = 0;
        while i < data_types.len()
            invariant
                i <= data_types@.len(),
                sizes == size_texts(self.size_in_bytes_by_type),
                total as int == size_of_types(sizes, data_types@.take(i as int))
                    % 0x1_0000_0000_0000_0000,
            decreases data_types@.len() - i,
        {
            proof {
                assert(data_types@.take(i + 1).drop_last() =~= data_types@.take(i as int));
                assert(data_types@.take(i + 1).last() == data_types@[i as int]);
            }
            let ghost before = size_of_types(sizes, data_types@.take(i as int));
            match size_for_name(&self.size_in_bytes_by_type, data_types[i].as_str()) {
                Some(size) => {
                    proof {
                        lemma_wrapping_sum_step(before, total, size);
                    }
                    total = total.wrapping_add(size);
                },
                None => {},
            }
            i = i + 1;
        }
        proof {
            assert(data_types@.take(data_types@.len() as int) =~= data_types@);
        }
        total
    }
}

/// Adding `size` to a running total kept modulo 2^64 keeps it equal, modulo 2^64, to
/// the full sum.
proof fn lemma_wrapping_sum_step(before: int, total: u64, size: u64)
    requires
        total as int == before % 0x1_0000_0000_0000_0000,
    ensures
        total + size > u64::MAX ==> total + size - 0x1_0000_0000_0000_0000 == (before + size)
            % 0x1_0000_0000_0000_0000,
        total + size <= u64::MAX ==> total + size == (before + size) % 0x1_0000_0000_0000_0000,
{
    let m: int = 0x1_0000_0000_0000_0000;
    vstd::arithmetic::div_mod::lemma_add_mod_noop(before, size as int, m);
    vstd::arithmetic::div_mod::lemma_small_mod((size as int) as nat, m as nat);
    if total + size > u64::MAX {
        vstd::arithmetic::div_mod::lemma_mod_sub_multiples_vanish((total + size) as int, m);
        assert((total + size - m) % m == (total + size) % m);
        vstd::arithmetic::div_mod::lemma_small_mod((total + size - m) as nat, m as nat);
    } else {
        vstd::arithmetic::div_mod::lemma_small_mod((total + size) as nat, m as nat);
    }
}

/// Totals add up: the total for the types of `a` followed by those of `b` is the
/// total for `a` plus the total for `b`, whatever the order and whichever types have no
/// size; a single type counts its recorded size, or nothing when it has none.
pub proof fn lemma_size_of_types_additive(
    sizes: Map<Seq<char>, u64>,
    a: Seq<WebExtensionDataType>,
    b: Seq<WebExtensionDataType>,
    t: WebExtensionDataType,
)
    ensures
        size_of_types(sizes, a + b) == size_of_types(sizes, a) + size_of_types(sizes, b),
        size_of_types(sizes, seq![t]) == if sizes.contains_key(t@) {
            sizes[t@] as int
        } else {
            0
        },
    decreases b.len(),
{
    assert(seq![t].drop_last() =~= Seq::<WebExtensionDataType>::empty());
    assert(seq![t].last() == t);
    assert(size_of_types(sizes, Seq::<WebExtensionDataType>::empty()) == 0);
    if b.len() == 0 {
        assert(a + b =~= a);
    } else {
        lemma_size_of_types_additive(sizes, a, b.drop_last(), t);
        assert((a + b).drop_last() =~= a + b.drop_last());
        assert((a + b).last() == b.last());
    }
}

/// Adding up sizes never shrinks as more data types are named: the total for a prefix
/// of the types is at most the total for all of them.
pub proof fn lemma_size_of_types_prefix(
    sizes: Map<Seq<char>, u64>,
    data_types: Seq<WebExtensionDataType>,
    n: int,
)
    requires
        0 <= n <= data_types.len(),
    ensures
        0 <= size_of_types(sizes, data_types.take(n)) <= size_of_types(sizes, data_types),
    decreases data_types.len(),
{
    if data_types.len() > 0 {
        if n == data_types.len() {
            assert(data_types.take(n) =~= data_types);
            lemma_size_of_types_prefix(sizes, data_types.drop_last(), n - 1);
        } else {
            assert(data_types.take(n) =~= data_types.drop_last().take(n));
            lemma_size_of_types_prefix(sizes, data_types.drop_last(), n);
        }
    }
}

/// The unique identifiers of `records`, in order.
pub fn record_identifiers(records: &[WebExtensionDataRecord]) -> (identifiers: Vec<String>)
    ensures
        identifiers@.len() == records@.len(),
        forall|i: int| 0 <= i < records@.len() ==> identifiers@[i] == records@[i].unique_identifier,
{
    let mut identifiers: Vec<String> = Vec::new();
    let mut i: usize = 0;
    while i < records.len()
        invariant
            i <= records@.len(),
            identifiers@.len() == i,
            forall|j: int| 0 <= j < i ==> identifiers@[j] == records@[j].unique_identifier,
        decreases records@.len() - i,
    {
        identifiers.push(records[i].unique_identifier.clone());
        i = i + 1;
    }
    identifiers
}

/// Configures `WKWebExtensionTab`.
#[derive(Debug, Clone, PartialEq, Eq)]
pub struct WebExtensionTabConfiguration {
    /// Mirrors the `has_window` value exposed by `WKWebExtensionTab`.
    pub has_window: bool,
    /// Mirrors the `index` value exposed by `WKWebExtensionTab`.
    pub index: usize,
    /// Mirrors the `has_parent_tab` value exposed by `WKWebExtensionTab`.
    pub has_parent_tab: bool,
    /// Mirrors the `url` value exposed by `WKWebExtensionTab`.
    pub url: Option<String>,
    /// Mirrors the `should_be_active` value exposed by `WKWebExtensionTab`.
    pub should_be_active: bool,
    /// Mirrors the `should_add_to_selection` value exposed by `WKWebExtensionTab`.
    pub should_add_to_selection: bool,
    /// Mirrors the `should_be_pinned` value exposed by `WKWebExtensionTab`.
    pub should_be_pinned: bool,
    /// Mirrors the `should_be_muted` value exposed by `WKWebExtensionTab`.
    pub should_be_muted: bool,
    /// Mirrors the `should_reader_mode_be_active` value exposed by `WKWebExtensionTab`.
    pub should_reader_mode_be_active: bool,
}

impl Default for WebExtensionTabConfiguration {
    /// No window, index 0, no parent, no URL, every flag `false`.
    fn default() -> (configuration: Self)
        ensures
            !configuration.has_window,
            configuration.index == 0,
            !configuration.has_parent_tab,
            configuration.url is None,
            !configuration.should_be_active,
            !configuration.should_add_to_selection,
            !configuration.should_be_pinned,
            !configuration.should_be_muted,
            !configuration.should_reader_mode_be_active,
    {
        WebExtensionTabConfiguration {
            has_window: false,
            index: 0,
            has_parent_tab: false,
            url: None,
            should_be_active: false,
            should_add_to_selection: false,
            should_be_pinned: false,
            should_be_muted: false,
            should_reader_mode_be_active: false,
        }
    }
}

/// Captures data returned by `WKWebExtensionController.Configuration`.
#[derive(Debug, Clone, PartialEq, Eq)]
pub struct WebExtensionControllerConfigurationSummary {
    /// Mirrors the `persistent` value exposed by `WKWebExtensionController.Configuration`.
    pub persistent: bool,
    /// Mirrors the `identifier` value exposed by `WKWebExtensionController.Configuration`.
    pub identifier: Option<String>,
}

impl Default for WebExtensionControllerConfigurationSummary {
    fn default() -> (summary: Self)
        ensures
            !summary.persistent,
            summary.identifier is None,
    {
        WebExtensionControllerConfigurationSummary { persistent: false, identifier: None }
    }
}

/// Notification names emitted by `WKWebExtensionContext`.
pub struct WebExtensionContextNotifications;

impl WebExtensionContextNotifications {
    /// Mirrors the corresponding `WKWebExtensionContext` API: the `errors_did_update_notification` name among
    /// `constants`.
    #[must_use]
    pub fn errors_did_update(constants: &WebExtensionConstants) -> (name: &str)
        ensures
            name@ == constants.errors_did_update_notification@,
    {
        constants.errors_did_update_notification.as_str()
    }

    /// Mirrors the corresponding `WKWebExtensionContext` API: the `permissions_were_granted_notification` name among
    /// `constants`.
    #[must_use]
    pub fn permissions_were_granted(constants: &WebExtensionConstants) -> (name: &str)
        ensures
            name@ == constants.permissions_were_granted_notification@,
    {
        constants.permissions_were_granted_notification.as_str()
    }

    /// Mirrors the corresponding `WKWebExtensionContext` API: the `permissions_were_denied_notification` name among
    /// `constants`.
    #[must_use]
    pub fn permissions_were_denied(constants: &WebExtensionConstants) -> (name: &str)
        ensures
            name@ == constants.permissions_were_denied_notification@,
    {
        constants.permissions_were_denied_notification.as_str()
    }

    /// Mirrors the corresponding `WKWebExtensionContext` API: the `granted_permissions_were_removed_notification` name among
    /// `constants`.
    #[must_use]
    pub fn granted_permissions_were_removed(constants: &WebExtensionConstants) -> (name: &str)
        ensures
            name@ == constants.granted_permissions_were_removed_notification@,
    {
        constants.granted_permissions_were_removed_notification.as_str()
    }

    /// Mirrors the corresponding `WKWebExtensionContext` API: the `denied_permissions_were_removed_notification` name among
    /// `constants`.
    #[must_use]
    pub fn denied_permissions_were_removed(constants: &WebExtensionConstants) -> (name: &str)
        ensures
            name@ == constants.denied_permissions_were_removed_notification@,
    {
        constants.denied_permissions_were_removed_notification.as_str()
    }

    /// Mirrors the corresponding `WKWebExtensionContext` API: the `permission_match_patterns_were_granted_notification` name among
    /// `constants`.
    #[must_use]
    pub fn permission_match_patterns_were_granted(constants: &WebExtensionConstants) -> (name: &str)
        ensures
            name@ == constants.permission_match_patterns_were_granted_notification@,
    {
        constants.permission_match_patterns_were_granted_notification.as_str()
    }

    /// Mirrors the corresponding `WKWebExtensionContext` API: the `permission_match_patterns_were_denied_notification` name among
    /// `constants`.
    #[must_use]
    pub fn permission_match_patterns_were_denied(constants: &WebExtensionConstants) -> (name: &str)
        ensures
            name@ == constants.permission_match_patterns_were_denied_notification@,
    {
        constants.permission_match_patterns_were_denied_notification.as_str()
    }

    /// Mirrors the corresponding `WKWebExtensionContext` API: the `granted_permission_match_patterns_were_removed_notification` name among
    /// `constants`.
    #[must_use]
    pub fn granted_permission_match_patterns_were_removed(constants: &WebExtensionConstants) -> (name: &str)
        ensures
            name@ == constants.granted_permission_match_patterns_were_removed_notification@,
    {
        constants.granted_permission_match_patterns_were_removed_notification.as_str()
    }

    /// Mirrors the corresponding `WKWebExtensionContext` API: the `denied_permission_match_patterns_were_removed_notification` name among
    /// `constants`.
    #[must_use]
    pub fn denied_permission_match_patterns_were_removed(constants: &WebExtensionConstants) -> (name: &str)
        ensures
            name@ == constants.denied_permission_match_patterns_were_removed_notification@,
    {
        constants.denied_permission_match_patterns_were_removed_notification.as_str()
    }

}
} // verus!
