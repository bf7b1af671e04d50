//! The failures that web view operations report.

use vstd::prelude::*;
use vstd::string::StringExecFns;
use crate::text::{decimal, decimal_string};

verus! {

/// Why an operation on a web view did not succeed.
#[derive(Debug, Clone, PartialEq, Eq)]
pub enum WebViewError {
    /// No rule exists for embedding a web view on this platform.
    UnsupportedPlatform,
    /// The parent window handle is zero or does not name a window or a view.
    InvalidWindowHandle,
    /// No live web view has this identifier.
    WebViewNotFound(u64),
    /// The web view with this identifier belongs to another thread.
    WrongThread(u64),
    /// The rendering engine refused the request; its own words are kept.
    WryError(String),
    /// The windowing toolkit could not be initialised; its own words are kept.
    GtkInit(String),
    /// A broken invariant, such as a poisoned lock or an exhausted identifier space.
    Internal(String),
}

/// The mathematical content of a [`WebViewError`].
pub ghost enum ErrorModel {
    UnsupportedPlatform,
    InvalidWindowHandle,
    WebViewNotFound(u64),
    WrongThread(u64),
    WryError(Seq<char>),
    GtkInit(Seq<char>),
    Internal(Seq<char>),
}

impl View for WebViewError {
    type V = ErrorModel;

    open spec fn view(&self) -> ErrorModel {
        match self {
            WebViewError::UnsupportedPlatform => ErrorModel::UnsupportedPlatform,
            WebViewError::InvalidWindowHandle => ErrorModel::InvalidWindowHandle,
            WebViewError::WebViewNotFound(id) => ErrorModel::WebViewNotFound(*id),
            WebViewError::WrongThread(id) => ErrorModel::WrongThread(*id),
            WebViewError::WryError(text) => ErrorModel::WryError(text@),
            WebViewError::GtkInit(text) => ErrorModel::GtkInit(text@),
            WebViewError::Internal(text) => ErrorModel::Internal(text@),
        }
    }
}

impl ErrorModel {
    /// The sentence shown to a person for this failure.
    pub open spec fn message(self) -> Seq<char> {
        match self {
            ErrorModel::UnsupportedPlatform => "unsupported platform for native webview"@,
            ErrorModel::InvalidWindowHandle => "invalid parent window handle"@,
            ErrorModel::WebViewNotFound(id) => "webview "@ + decimal(id as nat) + " not found"@,
            ErrorModel::WrongThread(id) => "webview "@ + decimal(id as nat)
                + " must be accessed from the creating thread"@,
            ErrorModel::WryError(text) => "wry error: "@ + text,
            ErrorModel::GtkInit(text) => "gtk initialization failed: "@ + text,
            ErrorModel::Internal(text) => "internal error: "@ + text,
        }
    }
}

/// The text reported when the lock around the registry was poisoned.
pub open spec fn registry_poisoned_text() -> Seq<char> {
    "webview registry lock poisoned"@
}

/// The text reported when no fresh identifier is left to hand out.
pub open spec fn identifiers_exhausted_text() -> Seq<char> {
    "webview identifier space exhausted"@
}

impl WebViewError {
    /// The sentence shown to a person for this failure.
    pub fn message(&self) -> (s: String)
        ensures
            s@ == self@.message(),
    {
        match self {
            WebViewError::UnsupportedPlatform => String::from_str(
                "unsupported platform for native webview",
            ),
            WebViewError::InvalidWindowHandle => String::from_str("invalid parent window handle"),
            WebViewError::WebViewNotFound(id) => {
                let mut s = String::from_str("webview ");
                let digits = decimal_string(*id);
                s.append(digits.as_str());
                s.append(" not found");
                s
            },
            WebViewError::WrongThread(id) => {
                let mut s = String::from_str("webview ");
                let digits = decimal_string(*id);
                s.append(digits.as_str());
                s.append(" must be accessed from the creating thread");
                s
            },
            WebViewError::WryError(text) => {
                let mut s = String::from_str("wry error: ");
                s.append(text.as_str());
                s
            },
            WebViewError::GtkInit(text) => {
                let mut s = String::from_str("gtk initialization failed: ");
                s.append(text.as_str());
                s
            },
            WebViewError::Internal(text) => {
                let mut s = String::from_str("internal error: ");
                s.append(text.as_str());
                s
            },
        }
    }

    /// The failure for a request that the rendering engine refused with `text`.
    pub fn from_engine(text: String) -> (e: WebViewError)
        ensures
            e@ == ErrorModel::WryError(text@),
    {
        WebViewError::WryError(text)
    }

    /// The failure for a toolkit that could not be initialised, with its `text`.
    pub fn from_toolkit(text: String) -> (e: WebViewError)
        ensures
            e@ == ErrorModel::GtkInit(text@),
    {
        WebViewError::GtkInit(text)
    }

    /// The failure to report when the lock around the registry was poisoned.
    pub fn registry_poisoned() -> (e: WebViewError)
        ensures
            e@ == ErrorModel::Internal(registry_poisoned_text()),
    {
        WebViewError::Internal(String::from_str("webview registry lock poisoned"))
    }

    /// The failure to report when no fresh identifier is left to hand out.
    pub fn identifiers_exhausted() -> (e: WebViewError)
        ensures
            e@ == ErrorModel::Internal(identifiers_exhausted_text()),
    {
        WebViewError::Internal(String::from_str("webview identifier space exhausted"))
    }
}

} // verus!
