use vstd::prelude::*;

use crate::ffi::status;

verus! {

/// Mirrors the `WEBKIT_ERROR_DOMAIN` constant used by `WKErrorDomain`.
pub const WEBKIT_ERROR_DOMAIN: &'static str = "WKErrorDomain";

/// Wraps `WKErrorCode` values.
#[derive(Debug, Clone, Copy, PartialEq, Eq, Structural)]
pub enum WebKitErrorCode {
    /// Mirrors the `Unknown` case used by `WKErrorCode`.
    Unknown,
    /// Mirrors the `WebContentProcessTerminated` case used by `WKErrorCode`.
    WebContentProcessTerminated,
    /// Mirrors the `WebViewInvalidated` case used by `WKErrorCode`.
    WebViewInvalidated,
    /// Mirrors the `JavaScriptExceptionOccurred` case used by `WKErrorCode`.
    JavaScriptExceptionOccurred,
    /// Mirrors the `JavaScriptResultTypeIsUnsupported` case used by `WKErrorCode`.
    JavaScriptResultTypeIsUnsupported,
    /// Mirrors the `ContentRuleListStoreCompileFailed` case used by `WKErrorCode`.
    ContentRuleListStoreCompileFailed,
    /// Mirrors the `ContentRuleListStoreLookUpFailed` case used by `WKErrorCode`.
    ContentRuleListStoreLookUpFailed,
    /// Mirrors the `ContentRuleListStoreRemoveFailed` case used by `WKErrorCode`.
    ContentRuleListStoreRemoveFailed,
    /// Mirrors the `ContentRuleListStoreVersionMismatch` case used by `WKErrorCode`.
    ContentRuleListStoreVersionMismatch,
    /// Mirrors the `AttributedStringContentFailedToLoad` case used by `WKErrorCode`.
    AttributedStringContentFailedToLoad,
    /// Mirrors the `AttributedStringContentLoadTimedOut` case used by `WKErrorCode`.
    AttributedStringContentLoadTimedOut,
    /// Mirrors the `JavaScriptInvalidFrameTarget` case used by `WKErrorCode`.
    JavaScriptInvalidFrameTarget,
    /// Mirrors the `NavigationAppBoundDomain` case used by `WKErrorCode`.
    NavigationAppBoundDomain,
    /// Mirrors the `JavaScriptAppBoundDomain` case used by `WKErrorCode`.
    JavaScriptAppBoundDomain,
    /// Mirrors the `DuplicateCredential` case used by `WKErrorCode`.
    DuplicateCredential,
    /// Mirrors the `MalformedCredential` case used by `WKErrorCode`.
    MalformedCredential,
    /// Mirrors the `CredentialNotFound` case used by `WKErrorCode`.
    CredentialNotFound,
}

impl WebKitErrorCode {
    /// The raw `WKErrorCode` value of a code: `Unknown` is 1 and each following case is one more.
    pub open spec fn raw_value(self) -> i64 {
        match self {
            WebKitErrorCode::Unknown => 1,
            WebKitErrorCode::WebContentProcessTerminated => 2,
            WebKitErrorCode::WebViewInvalidated => 3,
            WebKitErrorCode::JavaScriptExceptionOccurred => 4,
            WebKitErrorCode::JavaScriptResultTypeIsUnsupported => 5,
            WebKitErrorCode::ContentRuleListStoreCompileFailed => 6,
            WebKitErrorCode::ContentRuleListStoreLookUpFailed => 7,
            WebKitErrorCode::ContentRuleListStoreRemoveFailed => 8,
            WebKitErrorCode::ContentRuleListStoreVersionMismatch => 9,
            WebKitErrorCode::AttributedStringContentFailedToLoad => 10,
            WebKitErrorCode::AttributedStringContentLoadTimedOut => 11,
            WebKitErrorCode::JavaScriptInvalidFrameTarget => 12,
            WebKitErrorCode::NavigationAppBoundDomain => 13,
            WebKitErrorCode::JavaScriptAppBoundDomain => 14,
            WebKitErrorCode::DuplicateCredential => 15,
            WebKitErrorCode::MalformedCredential => 16,
            WebKitErrorCode::CredentialNotFound => 17,
        }
    }

    /// The code that a raw `WKErrorCode` value decodes to; `None` outside 1 through 17.
    pub open spec fn from_raw_value(raw: i64) -> Option<Self> {
        if raw == 1 {
            Some(WebKitErrorCode::Unknown)
        } else if raw == 2 {
            Some(WebKitErrorCode::WebContentProcessTerminated)
        } else if raw == 3 {
            Some(WebKitErrorCode::WebViewInvalidated)
        } else if raw == 4 {
            Some(WebKitErrorCode::JavaScriptExceptionOccurred)
        } else if raw == 5 {
            Some(WebKitErrorCode::JavaScriptResultTypeIsUnsupported)
        } else if raw == 6 {
            Some(WebKitErrorCode::ContentRuleListStoreCompileFailed)
        } else if raw == 7 {
            Some(WebKitErrorCode::ContentRuleListStoreLookUpFailed)
        } else if raw == 8 {
            Some(WebKitErrorCode::ContentRuleListStoreRemoveFailed)
        } else if raw == 9 {
            Some(WebKitErrorCode::ContentRuleListStoreVersionMismatch)
        } else if raw == 10 {
            Some(WebKitErrorCode::AttributedStringContentFailedToLoad)
        } else if raw == 11 {
            Some(WebKitErrorCode::AttributedStringContentLoadTimedOut)
        } else if raw == 12 {
            Some(WebKitErrorCode::JavaScriptInvalidFrameTarget)
        } else if raw == 13 {
            Some(WebKitErrorCode::NavigationAppBoundDomain)
        } else if raw == 14 {
            Some(WebKitErrorCode::JavaScriptAppBoundDomain)
        } else if raw == 15 {
            Some(WebKitErrorCode::DuplicateCredential)
        } else if raw == 16 {
            Some(WebKitErrorCode::MalformedCredential)
        } else if raw == 17 {
            Some(WebKitErrorCode::CredentialNotFound)
        } else {
            None
        }
    }

    /// Returns the corresponding value from `WKErrorCode`.
    #[must_use]
    pub fn as_raw(self) -> (raw: i64)
        ensures
            raw == self.raw_value(),
    {
        match self {
            WebKitErrorCode::Unknown => 1,
            WebKitErrorCode::WebContentProcessTerminated => 2,
            WebKitErrorCode::WebViewInvalidated => 3,
            WebKitErrorCode::JavaScriptExceptionOccurred => 4,
            WebKitErrorCode::JavaScriptResultTypeIsUnsupported => 5,
            WebKitErrorCode::ContentRuleListStoreCompileFailed => 6,
            WebKitErrorCode::ContentRuleListStoreLookUpFailed => 7,
            WebKitErrorCode::ContentRuleListStoreRemoveFailed => 8,
            WebKitErrorCode::ContentRuleListStoreVersionMismatch => 9,
            WebKitErrorCode::AttributedStringContentFailedToLoad => 10,
            WebKitErrorCode::AttributedStringContentLoadTimedOut => 11,
            WebKitErrorCode::JavaScriptInvalidFrameTarget => 12,
            WebKitErrorCode::NavigationAppBoundDomain => 13,
            WebKitErrorCode::JavaScriptAppBoundDomain => 14,
            WebKitErrorCode::DuplicateCredential => 15,
            WebKitErrorCode::MalformedCredential => 16,
            WebKitErrorCode::CredentialNotFound => 17,
        }
    }

    /// Creates a value for `WKErrorCode`: `Some` exactly for the raw values of the
    /// codes, 1 through 17.
    #[must_use]
    pub fn from_raw(raw: i64) -> (code: Option<Self>)
        ensures
            code == Self::from_raw_value(raw),
            code is Some <==> 1 <= raw <= 17,
    {
        match raw {
            1 => Some(WebKitErrorCode::Unknown),
            2 => Some(WebKitErrorCode::WebContentProcessTerminated),
            3 => Some(WebKitErrorCode::WebViewInvalidated),
            4 => Some(WebKitErrorCode::JavaScriptExceptionOccurred),
            5 => Some(WebKitErrorCode::JavaScriptResultTypeIsUnsupported),
            6 => Some(WebKitErrorCode::ContentRuleListStoreCompileFailed),
            7 => Some(WebKitErrorCode::ContentRuleListStoreLookUpFailed),
            8 => Some(WebKitErrorCode::ContentRuleListStoreRemoveFailed),
            9 => Some(WebKitErrorCode::ContentRuleListStoreVersionMismatch),
            10 => Some(WebKitErrorCode::AttributedStringContentFailedToLoad),
            11 => Some(WebKitErrorCode::AttributedStringContentLoadTimedOut),
            12 => Some(WebKitErrorCode::JavaScriptInvalidFrameTarget),
            13 => Some(WebKitErrorCode::NavigationAppBoundDomain),
            14 => Some(WebKitErrorCode::JavaScriptAppBoundDomain),
            15 => Some(WebKitErrorCode::DuplicateCredential),
            16 => Some(WebKitErrorCode::MalformedCredential),
            17 => Some(WebKitErrorCode::CredentialNotFound),
            _ => None,
        }
    }

    /// Returns the corresponding value from `WKErrorCode`: the WebKit error domain.
    #[must_use]
    pub fn domain() -> (domain: &'static str)
        ensures
            domain == WEBKIT_ERROR_DOMAIN,
    {
        WEBKIT_ERROR_DOMAIN
    }
}

/// Wraps `WKErrorDomain` values: the kind of failure and its message.
#[derive(Debug, Clone, PartialEq, Eq)]
pub enum WebKitError {
    /// Mirrors the `InvalidArgument` case used by `WKErrorDomain`.
    InvalidArgument(String),
    /// Mirrors the `Unsupported` case used by `WKErrorDomain`.
    Unsupported(String),
    /// Mirrors the `TimedOut` case used by `WKErrorDomain`.
    TimedOut(String),
    /// Mirrors the `FrameworkError` case used by `WKErrorDomain`.
    FrameworkError(String),
    /// Mirrors the `Unknown` case used by `WKErrorDomain`.
    Unknown(String),
}

/// The error that a bridge status code and message stand for: each known failure
/// code has its own kind, every other code is `Unknown`.
pub open spec fn spec_error_from_status(code: i32, message: String) -> WebKitError {
    if code == status::INVALID_ARGUMENT {
        WebKitError::InvalidArgument(message)
    } else if code == status::UNSUPPORTED {
        WebKitError::Unsupported(message)
    } else if code == status::TIMED_OUT {
        WebKitError::TimedOut(message)
    } else if code == status::FRAMEWORK_ERROR {
        WebKitError::FrameworkError(message)
    } else {
        WebKitError::Unknown(message)
    }
}

impl WebKitError {
    /// The message carried by an error, whatever its kind.
    pub open spec fn payload(self) -> String {
        match self {
            WebKitError::InvalidArgument(m) => m,
            WebKitError::Unsupported(m) => m,
            WebKitError::TimedOut(m) => m,
            WebKitError::FrameworkError(m) => m,
            WebKitError::Unknown(m) => m,
        }
    }

    /// The bridge status code that stands for the kind of an error.
    pub open spec fn status_code(self) -> i32 {
        match self {
            WebKitError::InvalidArgument(_) => status::INVALID_ARGUMENT,
            WebKitError::Unsupported(_) => status::UNSUPPORTED,
            WebKitError::TimedOut(_) => status::TIMED_OUT,
            WebKitError::FrameworkError(_) => status::FRAMEWORK_ERROR,
            WebKitError::Unknown(_) => status::UNKNOWN,
        }
    }

    /// The text an error is displayed as: a phrase naming its kind, a colon and its message.
    pub open spec fn display_text(self) -> Seq<char> {
        match self {
            WebKitError::InvalidArgument(m) => "invalid argument: "@ + m@,
            WebKitError::Unsupported(m) => "unsupported: "@ + m@,
            WebKitError::TimedOut(m) => "timed out: "@ + m@,
            WebKitError::FrameworkError(m) => "framework error: "@ + m@,
            WebKitError::Unknown(m) => "unknown error: "@ + m@,
        }
    }

    /// Returns the corresponding value from `WKErrorDomain`: the error's message.
    #[must_use]
    pub fn message(&self) -> (message: &str)
        ensures
            message@ == self.payload()@,
    {
        match self {
            WebKitError::InvalidArgument(m) => m.as_str(),
            WebKitError::Unsupported(m) => m.as_str(),
            WebKitError::TimedOut(m) => m.as_str(),
            WebKitError::FrameworkError(m) => m.as_str(),
            WebKitError::Unknown(m) => m.as_str(),
        }
    }

    /// The text the error is displayed as, such as `invalid argument: bad url`.
    #[must_use]
    pub fn to_string(&self) -> (text: String)
        ensures
            text@ == self.display_text(),
    {
        let (prefix, message) = match self {
            WebKitError::InvalidArgument(m) => ("invalid argument: ", m),
            WebKitError::Unsupported(m) => ("unsupported: ", m),
            WebKitError::TimedOut(m) => ("timed out: ", m),
            WebKitError::FrameworkError(m) => ("framework error: ", m),
            WebKitError::Unknown(m) => ("unknown error: ", m),
        };
        let mut text = String::from_str(prefix);
        text.append(message.as_str());
        text
    }
}

/// The error that a bridge status code and message stand for.
pub fn error_from_status(code: i32, message: String) -> (error: WebKitError)
    ensures
        error == spec_error_from_status(code, message),
{
    match code {
        status::INVALID_ARGUMENT => WebKitError::InvalidArgument(message),
        status::UNSUPPORTED => WebKitError::Unsupported(message),
        status::TIMED_OUT => WebKitError::TimedOut(message),
        status::FRAMEWORK_ERROR => WebKitError::FrameworkError(message),
        _ => WebKitError::Unknown(message),
    }
}

/// The bridge status code that stands for the kind of an error.
pub fn status_from_error(error: &WebKitError) -> (code: i32)
    ensures
        code == error.status_code(),
{
    match error {
        WebKitError::InvalidArgument(_) => status::INVALID_ARGUMENT,
        WebKitError::Unsupported(_) => status::UNSUPPORTED,
        WebKitError::TimedOut(_) => status::TIMED_OUT,
        WebKitError::FrameworkError(_) => status::FRAMEWORK_ERROR,
        WebKitError::Unknown(_) => status::UNKNOWN,
    }
}

/// A raw error code decodes back to the code it was taken from, and a raw value that
/// decodes to a code is that code's raw value.
pub proof fn lemma_error_code_round_trip(code: WebKitErrorCode, raw: i64)
    ensures
        WebKitErrorCode::from_raw_value(code.raw_value()) == Some(code),
        WebKitErrorCode::from_raw_value(raw) matches Some(c) ==> c.raw_value() == raw,
{
}

/// WebKit's `WKErrorCode` numbering: the codes are numbered from 1 in declaration
/// order (`Unknown` 1, `WebContentProcessTerminated` 2, `WebViewInvalidated` 3, ...,
/// `CredentialNotFound` 17), each raw value decodes to the code that carries it, and
/// no two codes share a raw value.
pub proof fn lemma_error_code_values(a: WebKitErrorCode, b: WebKitErrorCode)
    ensures
        WebKitErrorCode::Unknown.raw_value() == 1,
        WebKitErrorCode::from_raw_value(1) == Some(WebKitErrorCode::Unknown),
        WebKitErrorCode::WebContentProcessTerminated.raw_value() == 2,
        WebKitErrorCode::from_raw_value(2) == Some(WebKitErrorCode::WebContentProcessTerminated),
        WebKitErrorCode::WebViewInvalidated.raw_value() == 3,
        WebKitErrorCode::from_raw_value(3) == Some(WebKitErrorCode::WebViewInvalidated),
        WebKitErrorCode::JavaScriptExceptionOccurred.raw_value() == 4,
        WebKitErrorCode::from_raw_value(4) == Some(WebKitErrorCode::JavaScriptExceptionOccurred),
        WebKitErrorCode::JavaScriptResultTypeIsUnsupported.raw_value() == 5,
        WebKitErrorCode::from_raw_value(5) == Some(WebKitErrorCode::JavaScriptResultTypeIsUnsupported),
        WebKitErrorCode::ContentRuleListStoreCompileFailed.raw_value() == 6,
        WebKitErrorCode::from_raw_value(6) == Some(WebKitErrorCode::ContentRuleListStoreCompileFailed),
        WebKitErrorCode::ContentRuleListStoreLookUpFailed.raw_value() == 7,
        WebKitErrorCode::from_raw_value(7) == Some(WebKitErrorCode::ContentRuleListStoreLookUpFailed),
        WebKitErrorCode::ContentRuleListStoreRemoveFailed.raw_value() == 8,
        WebKitErrorCode::from_raw_value(8) == Some(WebKitErrorCode::ContentRuleListStoreRemoveFailed),
        WebKitErrorCode::ContentRuleListStoreVersionMismatch.raw_value() == 9,
        WebKitErrorCode::from_raw_value(9) == Some(WebKitErrorCode::ContentRuleListStoreVersionMismatch),
        WebKitErrorCode::AttributedStringContentFailedToLoad.raw_value() == 10,
        WebKitErrorCode::from_raw_value(10) == Some(WebKitErrorCode::AttributedStringContentFailedToLoad),
        WebKitErrorCode::AttributedStringContentLoadTimedOut.raw_value() == 11,
        WebKitErrorCode::from_raw_value(11) == Some(WebKitErrorCode::AttributedStringContentLoadTimedOut),
        WebKitErrorCode::JavaScriptInvalidFrameTarget.raw_value() == 12,
        WebKitErrorCode::from_raw_value(12) == Some(WebKitErrorCode::JavaScriptInvalidFrameTarget),
        WebKitErrorCode::NavigationAppBoundDomain.raw_value() == 13,
        WebKitErrorCode::from_raw_value(13) == Some(WebKitErrorCode::NavigationAppBoundDomain),
        WebKitErrorCode::JavaScriptAppBoundDomain.raw_value() == 14,
        WebKitErrorCode::from_raw_value(14) == Some(WebKitErrorCode::JavaScriptAppBoundDomain),
        WebKitErrorCode::DuplicateCredential.raw_value() == 15,
        WebKitErrorCode::from_raw_value(15) == Some(WebKitErrorCode::DuplicateCredential),
        WebKitErrorCode::MalformedCredential.raw_value() == 16,
        WebKitErrorCode::from_raw_value(16) == Some(WebKitErrorCode::MalformedCredential),
        WebKitErrorCode::CredentialNotFound.raw_value() == 17,
        WebKitErrorCode::from_raw_value(17) == Some(WebKitErrorCode::CredentialNotFound),
        1 <= a.raw_value() <= 17,
        a.raw_value() == b.raw_value() ==> a == b,
{
}

/// The bridge's status numbering and what each failure code stands for: `OK` 0,
/// `INVALID_ARGUMENT` -1, `UNSUPPORTED` -2, `TIMED_OUT` -3, `FRAMEWORK_ERROR` -5 and
/// `UNKNOWN` -99; -1, -2, -3 and -5 give errors of their own kinds, any other code an
/// `Unknown` error, and each kind reports its own code.
pub proof fn lemma_status_codes(code: i32, message: String)
    ensures
        status::OK == 0,
        status::INVALID_ARGUMENT == -1,
        status::UNSUPPORTED == -2,
        status::TIMED_OUT == -3,
        status::FRAMEWORK_ERROR == -5,
        status::UNKNOWN == -99,
        spec_error_from_status(-1i32, message) == WebKitError::InvalidArgument(message),
        spec_error_from_status(-2i32, message) == WebKitError::Unsupported(message),
        spec_error_from_status(-3i32, message) == WebKitError::TimedOut(message),
        spec_error_from_status(-5i32, message) == WebKitError::FrameworkError(message),
        (code != -1 && code != -2 && code != -3 && code != -5) ==> spec_error_from_status(
            code,
            message,
        ) == WebKitError::Unknown(message),
        WebKitError::InvalidArgument(message).status_code() == -1,
        WebKitError::Unsupported(message).status_code() == -2,
        WebKitError::TimedOut(message).status_code() == -3,
        WebKitError::FrameworkError(message).status_code() == -5,
        WebKitError::Unknown(message).status_code() == -99,
{
}

/// Turning a status code and message into an error keeps the message, and the error's
/// status code is the code itself for the four known failure codes and `UNKNOWN` for
/// any other code.
pub proof fn lemma_status_error_round_trip(code: i32, message: String)
    ensures
        spec_error_from_status(code, message).payload() == message,
        spec_error_from_status(code, message).status_code() == (if code == status::INVALID_ARGUMENT
            || code == status::UNSUPPORTED || code == status::TIMED_OUT || code
            == status::FRAMEWORK_ERROR {
            code
        } else {
            status::UNKNOWN
        }),
{
}

/// Every error is rebuilt exactly by turning its status code and message back into an
/// error.
pub proof fn lemma_error_status_round_trip(error: WebKitError)
    ensures
        spec_error_from_status(error.status_code(), error.payload()) == error,
{
}

} // verus!
