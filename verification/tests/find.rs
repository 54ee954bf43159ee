use webkit::find::{FindConfiguration, FindResult, TextFinderAction};

#[test]
fn text_finder_action_raw_values_are_stable() {
    let cases = [
        (TextFinderAction::ShowFindInterface, 1),
        (TextFinderAction::ReplaceAll, 4),
        (TextFinderAction::ReplaceAndFind, 6),
        (TextFinderAction::HideReplaceInterface, 13),
    ];

    for (action, raw) in cases {
        assert_eq!(action.as_raw(), raw);
    }
}

#[test]
fn find_configuration_default_and_builder_methods_work_together() {
    let configuration = FindConfiguration::new()
        .with_backwards(true)
        .with_case_sensitive(true)
        .with_wraps(false);

    assert_eq!(
        FindConfiguration::default(),
        FindConfiguration { backwards: false, case_sensitive: false, wraps: true }
    );
    assert!(configuration.backwards);
    assert!(configuration.case_sensitive);
    assert!(!configuration.wraps);
}

#[test]
fn find_result_found_reflects_match_flag() {
    assert!(FindResult { match_found: true }.found());
    assert!(!FindResult { match_found: false }.found());
}

#[test]
fn builders_change_only_their_own_option() {
    let base = FindConfiguration::new();
    assert_eq!(
        base.with_backwards(true),
        FindConfiguration { backwards: true, case_sensitive: false, wraps: true }
    );
    assert_eq!(
        base.with_case_sensitive(true),
        FindConfiguration { backwards: false, case_sensitive: true, wraps: true }
    );
    assert_eq!(
        base.with_wraps(false),
        FindConfiguration { backwards: false, case_sensitive: false, wraps: false }
    );
    assert!(!FindResult::default().found());
    assert_eq!(TextFinderAction::NextMatch.as_raw(), 2);
    assert_eq!(TextFinderAction::SelectAllInSelection.as_raw(), 10);
}
