use vstd::prelude::*;

verus! {

/// Wraps `WKWebView` text-finder actions.
#[derive(Debug, Clone, Copy, PartialEq, Eq, Structural)]
pub enum TextFinderAction {
    /// Mirrors the `ShowFindInterface` case used by `WKWebView`.
    ShowFindInterface,
    /// Mirrors the `NextMatch` case used by `WKWebView`.
    NextMatch,
    /// Mirrors the `PreviousMatch` case used by `WKWebView`.
    PreviousMatch,
    /// Mirrors the `ReplaceAll` case used by `WKWebView`.
    ReplaceAll,
    /// Mirrors the `Replace` case used by `WKWebView`.
    Replace,
    /// Mirrors the `ReplaceAndFind` case used by `WKWebView`.
    ReplaceAndFind,
    /// Mirrors the `SetSearchString` case used by `WKWebView`.
    SetSearchString,
    /// Mirrors the `ReplaceAllInSelection` case used by `WKWebView`.
    ReplaceAllInSelection,
    /// Mirrors the `SelectAll` case used by `WKWebView`.
    SelectAll,
    /// Mirrors the `SelectAllInSelection` case used by `WKWebView`.
    SelectAllInSelection,
    /// Mirrors the `HideFindInterface` case used by `WKWebView`.
    HideFindInterface,
    /// Mirrors the `ShowReplaceInterface` case used by `WKWebView`.
    ShowReplaceInterface,
    /// Mirrors the `HideReplaceInterface` case used by `WKWebView`.
    HideReplaceInterface,
}

impl TextFinderAction {
    /// The raw value of an action: `ShowFindInterface` is 1 and each following case is
    /// one more, up to 13.
    pub open spec fn raw_value(self) -> i32 {
        match self {
            TextFinderAction::ShowFindInterface => 1,
            TextFinderAction::NextMatch => 2,
            TextFinderAction::PreviousMatch => 3,
            TextFinderAction::ReplaceAll => 4,
            TextFinderAction::Replace => 5,
            TextFinderAction::ReplaceAndFind => 6,
            TextFinderAction::SetSearchString => 7,
            TextFinderAction::ReplaceAllInSelection => 8,
            TextFinderAction::SelectAll => 9,
            TextFinderAction::SelectAllInSelection => 10,
            TextFinderAction::HideFindInterface => 11,
            TextFinderAction::ShowReplaceInterface => 12,
            TextFinderAction::HideReplaceInterface => 13,
        }
    }

    /// Returns the corresponding value from `WKWebView`.
    #[must_use]
    pub fn as_raw(self) -> (raw: i32)
        ensures
            raw == self.raw_value(),
    {
        match self {
            TextFinderAction::ShowFindInterface => 1,
            TextFinderAction::NextMatch => 2,
            TextFinderAction::PreviousMatch => 3,
            TextFinderAction::ReplaceAll => 4,
            TextFinderAction::Replace => 5,
            TextFinderAction::ReplaceAndFind => 6,
            TextFinderAction::SetSearchString => 7,
            TextFinderAction::ReplaceAllInSelection => 8,
            TextFinderAction::SelectAll => 9,
            TextFinderAction::SelectAllInSelection => 10,
            TextFinderAction::HideFindInterface => 11,
            TextFinderAction::ShowReplaceInterface => 12,
            TextFinderAction::HideReplaceInterface => 13,
        }
    }
}

/// WebKit's text-finder action numbering: the actions are numbered from 1 in
/// declaration order (`ShowFindInterface` 1, `NextMatch` 2, `PreviousMatch` 3, ...,
/// `HideReplaceInterface` 13), and no two actions share a raw value.
pub proof fn lemma_text_finder_action_values(a: TextFinderAction, b: TextFinderAction)
    ensures
        TextFinderAction::ShowFindInterface.raw_value() == 1,
        TextFinderAction::NextMatch.raw_value() == 2,
        TextFinderAction::PreviousMatch.raw_value() == 3,
        TextFinderAction::ReplaceAll.raw_value() == 4,
        TextFinderAction::Replace.raw_value() == 5,
        TextFinderAction::ReplaceAndFind.raw_value() == 6,
        TextFinderAction::SetSearchString.raw_value() == 7,
        TextFinderAction::ReplaceAllInSelection.raw_value() == 8,
        TextFinderAction::SelectAll.raw_value() == 9,
        TextFinderAction::SelectAllInSelection.raw_value() == 10,
        TextFinderAction::HideFindInterface.raw_value() == 11,
        TextFinderAction::ShowReplaceInterface.raw_value() == 12,
        TextFinderAction::HideReplaceInterface.raw_value() == 13,
        1 <= a.raw_value() <= 13,
        a.raw_value() == b.raw_value() ==> a == b,
{
}

/// Configuration for `WKWebView.findString(_:withConfiguration:)`.
#[derive(Debug, Clone, Copy, PartialEq, Eq, Structural)]
pub struct FindConfiguration {
    /// Mirrors the `backwards` value exposed by `WKFindConfiguration`.
    pub backwards: bool,
    /// Mirrors the `case_sensitive` value exposed by `WKFindConfiguration`.
    pub case_sensitive: bool,
    /// Mirrors the `wraps` value exposed by `WKFindConfiguration`.
    pub wraps: bool,
}

impl Default for FindConfiguration {
    /// Searches forwards, ignoring case, wrapping around the end of the page.
    fn default() -> (configuration: Self)
        ensures
            configuration == (FindConfiguration { backwards: false, case_sensitive: false, wraps: true }),
    {
        FindConfiguration { backwards: false, case_sensitive: false, wraps: true }
    }
}

impl FindConfiguration {
    /// Creates a value for `WKFindConfiguration`: the default configuration.
    #[must_use]
    pub fn new() -> (configuration: Self)
        ensures
            configuration == (FindConfiguration { backwards: false, case_sensitive: false, wraps: true }),
    {
        Self::default()
    }

    /// Sets the corresponding option used by `WKFindConfiguration`.
    #[must_use]
    pub fn with_backwards(self, backwards: bool) -> (configuration: Self)
        ensures
            configuration == (FindConfiguration { backwards, ..self }),
    {
        FindConfiguration { backwards, ..self }
    }

    /// Sets the corresponding option used by `WKFindConfiguration`.
    #[must_use]
    pub fn with_case_sensitive(self, case_sensitive: bool) -> (configuration: Self)
        ensures
            configuration == (FindConfiguration { case_sensitive, ..self }),
    {
        FindConfiguration { case_sensitive, ..self }
    }

    /// Sets the corresponding option used by `WKFindConfiguration`.
    #[must_use]
    pub fn with_wraps(self, wraps: bool) -> (configuration: Self)
        ensures
            configuration == (FindConfiguration { wraps, ..self }),
    {
        FindConfiguration { wraps, ..self }
    }
}

/// Result returned by a find-in-page operation.
#[derive(Debug, Clone, Copy, PartialEq, Eq, Structural)]
pub struct FindResult {
    /// Mirrors the `match_found` value exposed by `WKFindResult`.
    pub match_found: bool,
}

impl Default for FindResult {
    fn default() -> (result: Self)
        ensures
            !result.match_found,
    {
        FindResult { match_found: false }
    }
}

impl FindResult {
    /// Returns the corresponding value from `WKFindResult`: whether a match was found.
    #[must_use]
    pub fn found(self) -> (found: bool)
        ensures
            found == self.match_found,
    {
        self.match_found
    }
}

} // verus!
