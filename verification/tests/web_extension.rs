use std::collections::BTreeMap;

use webkit::error::WebKitError;
use webkit::web_extension::{
    record_identifiers, unsupported_web_extension_delegate_method, WebExtensionConstants,
    WebExtensionContextNotifications, WebExtensionContextPermissionStatus,
    WebExtensionDataRecord, WebExtensionDataType, WebExtensionError,
    WebExtensionMatchPatternOptions, WebExtensionPermission, WebExtensionTabChangedProperties,
};

fn constants() -> WebExtensionConstants {
    let s = |v: &str| v.to_owned();
    WebExtensionConstants {
        web_extension_error_domain: s("WKWebExtensionErrorDomain"),
        web_extension_context_error_domain: s("ctx"),
        web_extension_data_record_error_domain: s("rec"),
        web_extension_match_pattern_error_domain: s("pat"),
        web_extension_message_port_error_domain: s("port"),
        errors_did_update_notification: s("errors"),
        permissions_were_granted_notification: s("granted"),
        permissions_were_denied_notification: s("denied"),
        granted_permissions_were_removed_notification: s("g-removed"),
        denied_permissions_were_removed_notification: s("d-removed"),
        permission_match_patterns_were_granted_notification: s("p-granted"),
        permission_match_patterns_were_denied_notification: s("p-denied"),
        granted_permission_match_patterns_were_removed_notification: s("pg-removed"),
        denied_permission_match_patterns_were_removed_notification: s("pd-removed"),
        notification_user_info_key_permissions: s("permissions"),
        notification_user_info_key_match_patterns: s("matchPatterns"),
        permission_active_tab: s("activeTab"),
        permission_alarms: s("alarms"),
        permission_clipboard_write: s("clipboardWrite"),
        permission_context_menus: s("contextMenus"),
        permission_cookies: s("cookies"),
        permission_declarative_net_request: s("declarativeNetRequest"),
        permission_declarative_net_request_feedback: s("declarativeNetRequestFeedback"),
        permission_declarative_net_request_with_host_access: s("dnrWithHostAccess"),
        permission_menus: s("menus"),
        permission_native_messaging: s("nativeMessaging"),
        permission_scripting: s("scripting"),
        permission_storage: s("storage"),
        permission_tabs: s("tabs"),
        permission_unlimited_storage: s("unlimitedStorage"),
        permission_web_navigation: s("webNavigation"),
        permission_web_request: s("webRequest"),
        data_type_local: s("local"),
        data_type_session: s("session"),
        data_type_synchronized: s("synchronized"),
    }
}

#[test]
fn constant_names_come_from_the_bridge_table() {
    let c = constants();
    assert_eq!(WebExtensionPermission::active_tab(&c).as_str(), "activeTab");
    assert_eq!(WebExtensionPermission::web_request(&c).as_str(), "webRequest");
    assert_eq!(WebExtensionDataType::session(&c).as_str(), "session");
    assert_eq!(WebExtensionError::domain(&c), "WKWebExtensionErrorDomain");
    assert_eq!(WebExtensionContextNotifications::errors_did_update(&c), "errors");
    assert_eq!(WebExtensionPermission::new("tabs"), WebExtensionPermission::tabs(&c));
}

#[test]
fn permission_status_round_trips() {
    for raw in -3..=3i64 {
        assert_eq!(WebExtensionContextPermissionStatus::from_raw(raw).as_raw(), raw);
    }
    assert_eq!(
        WebExtensionContextPermissionStatus::from_raw(9),
        WebExtensionContextPermissionStatus::Unknown
    );
    assert_eq!(WebExtensionContextPermissionStatus::GrantedExplicitly.as_raw(), 3);
}

#[test]
fn option_flags_combine() {
    let mut options = WebExtensionMatchPatternOptions::ignore_schemes();
    options |= WebExtensionMatchPatternOptions::match_bidirectionally();
    assert_eq!(options.bits(), 5);
    assert!(options.contains(WebExtensionMatchPatternOptions::ignore_schemes()));
    assert!(!options.contains(WebExtensionMatchPatternOptions::ignore_paths()));
    let changed = WebExtensionTabChangedProperties::title() | WebExtensionTabChangedProperties::url();
    assert_eq!(changed.bits(), (1 << 7) | (1 << 8));
    assert_eq!(WebExtensionTabChangedProperties::default().bits(), 0);
}

#[test]
fn record_sizes_add_up_per_type() {
    let c = constants();
    let mut sizes = BTreeMap::new();
    sizes.insert("local".to_owned(), 10u64);
    sizes.insert("session".to_owned(), 5u64);
    let record = WebExtensionDataRecord {
        unique_identifier: "id-1".to_owned(),
        size_in_bytes_by_type: sizes,
        ..WebExtensionDataRecord::default()
    };
    let local = WebExtensionDataType::local(&c);
    let session = WebExtensionDataType::session(&c);
    let synced = WebExtensionDataType::synchronized(&c);
    assert_eq!(record.size_in_bytes_of_types(&[local.clone(), session.clone()]), 15);
    assert_eq!(record.size_in_bytes_of_types(&[synced]), 0);
    assert_eq!(record.size_in_bytes_of_types(&[local.clone(), local]), 20);
    assert_eq!(record.size_in_bytes_of_types(&[]), 0);
    let other = WebExtensionDataRecord { unique_identifier: "id-2".to_owned(), ..record.clone() };
    assert_eq!(record_identifiers(&[record, other]), vec!["id-1", "id-2"]);
}

#[test]
fn unimplemented_delegate_methods_are_unsupported() {
    assert_eq!(
        unsupported_web_extension_delegate_method("WKWebExtensionTab.setMuted"),
        WebKitError::Unsupported(
            "web extension delegate method `WKWebExtensionTab.setMuted` is not implemented"
                .to_owned()
        )
    );
}

#[test]
fn web_extension_flag_sets_are_their_bits() {
    for bits in [0u64, 1, 6, u64::MAX] {
        let options = WebExtensionMatchPatternOptions::from_bits(bits);
        assert_eq!(WebExtensionMatchPatternOptions::from_bits(options.bits()), options);
        let changed = WebExtensionTabChangedProperties::from_bits(bits);
        assert_eq!(WebExtensionTabChangedProperties::from_bits(changed.bits()), changed);
    }
    assert_eq!(WebExtensionMatchPatternOptions::from_bits(0), WebExtensionMatchPatternOptions::none());
    assert_eq!(WebExtensionMatchPatternOptions::default(), WebExtensionMatchPatternOptions::none());
    assert_eq!(WebExtensionTabChangedProperties::from_bits(0), WebExtensionTabChangedProperties::none());
    assert_eq!(WebExtensionTabChangedProperties::default(), WebExtensionTabChangedProperties::none());
}

#[test]
fn data_record_size_total_wraps_past_the_largest_u64() {
    let mut sizes = BTreeMap::new();
    sizes.insert("big".to_owned(), u64::MAX);
    sizes.insert("small".to_owned(), 3);
    let record = WebExtensionDataRecord { size_in_bytes_by_type: sizes, ..WebExtensionDataRecord::default() };
    let big = WebExtensionDataType::new("big");
    let small = WebExtensionDataType::new("small");
    assert_eq!(record.size_in_bytes_of_types(&[big.clone()]), u64::MAX);
    assert_eq!(record.size_in_bytes_of_types(&[big, small]), 2);
    assert_eq!(WebExtensionDataRecord::default().size_in_bytes_of_types(&[WebExtensionDataType::new("big")]), 0);
}
