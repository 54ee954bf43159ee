use webkit::download::DownloadRedirectPolicy;
use webkit::navigation_delegate::{
    NavigationAction, NavigationActionPolicy, NavigationDelegateConfig, NavigationEvent,
    NavigationEventKind, NavigationResponsePolicy, NavigationType,
};
use webkit::preferences::{InactiveSchedulingPolicy, UpgradeToHTTPSPolicy};

#[test]
fn navigation_type_raw_values_round_trip() {
    let kinds = [
        (NavigationType::LinkActivated, 0),
        (NavigationType::FormSubmitted, 1),
        (NavigationType::BackForward, 2),
        (NavigationType::Reload, 3),
        (NavigationType::FormResubmitted, 4),
        (NavigationType::Other, -1),
    ];
    for (kind, raw) in kinds {
        assert_eq!(kind.as_raw(), raw);
        assert_eq!(NavigationType::from_raw(raw), kind);
    }
    assert_eq!(NavigationType::from_raw(77), NavigationType::Other);
    assert_eq!(NavigationType::default(), NavigationType::Other);
}

#[test]
fn unknown_event_and_its_navigation_type() {
    let mut event = NavigationEvent::unknown();
    assert_eq!(event.kind, NavigationEventKind::Unknown);
    assert!(event.url.is_empty());
    assert_eq!(event.navigation_type_enum(), None);
    event.navigation_type = Some(2);
    assert_eq!(event.navigation_type_enum(), Some(NavigationType::BackForward));
    event.navigation_type = Some(9);
    assert_eq!(event.navigation_type_enum(), Some(NavigationType::Other));
}

#[test]
fn policies_and_defaults() {
    assert_eq!(NavigationActionPolicy::Cancel.as_raw(), 0);
    assert_eq!(NavigationActionPolicy::Allow.as_raw(), 1);
    assert_eq!(NavigationActionPolicy::Download.as_raw(), 2);
    assert_eq!(NavigationResponsePolicy::Download.as_raw(), 2);
    let config = NavigationDelegateConfig::default();
    assert_eq!(config.action_policy, NavigationActionPolicy::Allow);
    assert_eq!(config.response_policy, NavigationResponsePolicy::Allow);
    let action = NavigationAction::default();
    assert_eq!(action.navigation_type, NavigationType::Other);
    assert_eq!(action.navigation_type_raw_value, -1);
    assert!(action.request_headers.is_empty());
    assert!(action.target_frame.is_none());
}

#[test]
fn download_and_preference_policies_round_trip() {
    assert_eq!(DownloadRedirectPolicy::Cancel.as_raw(), 0);
    assert_eq!(DownloadRedirectPolicy::from_raw(0), DownloadRedirectPolicy::Cancel);
    assert_eq!(DownloadRedirectPolicy::from_raw(5), DownloadRedirectPolicy::Allow);
    for policy in [
        UpgradeToHTTPSPolicy::KeepAsRequested,
        UpgradeToHTTPSPolicy::AutomaticFallbackToHttp,
        UpgradeToHTTPSPolicy::UserMediatedFallbackToHttp,
        UpgradeToHTTPSPolicy::ErrorOnFailure,
    ] {
        assert_eq!(UpgradeToHTTPSPolicy::from_raw(policy.as_raw()), policy);
    }
    assert_eq!(UpgradeToHTTPSPolicy::ErrorOnFailure.as_raw(), 3);
    assert_eq!(UpgradeToHTTPSPolicy::from_raw(-1), UpgradeToHTTPSPolicy::KeepAsRequested);
    assert_eq!(InactiveSchedulingPolicy::default(), InactiveSchedulingPolicy::Suspend);
}
