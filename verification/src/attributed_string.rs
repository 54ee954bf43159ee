use vstd::prelude::*;

verus! {

/// Mirrors the `READ_ACCESS_URL_DOCUMENT_OPTION` constant used by `NSAttributedString`.
pub const READ_ACCESS_URL_DOCUMENT_OPTION: &'static str = "NSReadAccessURLDocumentOption";

/// A request to load an attributed string from the HTML at a URL.
#[derive(Debug, Clone, PartialEq, Eq)]
pub struct HtmlLoadRequest {
    /// Mirrors the `url` value exposed by `NSAttributedString`.
    pub url: String,
}

impl HtmlLoadRequest {
    /// Creates a value for `NSAttributedString`: a request for `url`.
    #[must_use]
    pub fn new(url: &str) -> (request: Self)
        ensures
            request.url@ == url@,
    {
        HtmlLoadRequest { url: String::from_str(url) }
    }
}

} // verus!
