//! The requests that are carried out by the rendering engine, and its answers.

use vstd::prelude::*;
use crate::bounds::Bounds;
use crate::cookie::CookieRecord;
use crate::dispatch::Completion;
use crate::error::{ErrorModel, WebViewError};
use crate::handle::NativeWindowRef;
use vstd::string::StringExecFns;

verus! {

/// Something a caller asks of one web view, to be done on the thread that owns it.
#[derive(Clone, Debug, PartialEq, Eq)]
pub enum Command {
    /// Move and resize the web view; width and height are raised to the minimum.
    SetBounds(Bounds),
    /// Navigate to an address.
    LoadUrl(String),
    /// Navigate to an address, sending the given header fields along.
    LoadUrlWithHeaders(String, Vec<(String, String)>),
    /// Show the given markup.
    LoadHtml(String),
    StopLoading,
    GoBack,
    GoForward,
    Reload,
    Focus,
    /// Run a script; its result is delivered later, outside this exchange.
    EvaluateScript(String),
    /// Ask whether there is a page to go back to.
    CanGoBack,
    /// Ask whether there is a page to go forward to.
    CanGoForward,
    /// Read the cookies that would be sent to an address.
    GetCookiesForUrl(String),
    /// Delete the cookies that would be sent to an address.
    ClearCookiesForUrl(String),
    ClearAllCookies,
    SetCookie(CookieRecord),
}

/// What the engine answers to a [`Command`] it carried out.
#[derive(Clone, Debug, PartialEq, Eq)]
pub enum Reply {
    /// The command was carried out; there is nothing to report.
    Done,
    /// The answer to a yes-or-no question.
    Flag(bool),
    /// The cookies that were asked for.
    Cookies(Vec<CookieRecord>),
}

/// The text reported when the engine answers a question with the wrong kind of reply.
pub open spec fn unexpected_reply_text() -> Seq<char> {
    "unexpected reply from the engine"@
}

impl Reply {
    /// Reads the reply as the answer to a yes-or-no question. A reply of another
    /// kind is a broken invariant.
    pub fn into_flag(self) -> (r: Result<bool, WebViewError>)
        ensures
            match self {
                Reply::Flag(flag) => r == Ok::<bool, WebViewError>(flag),
                _ => r is Err && r->Err_0@ == ErrorModel::Internal(unexpected_reply_text()),
            },
    {
        match self {
            Reply::Flag(flag) => Ok(flag),
            _ => Err(WebViewError::Internal(String::from_str("unexpected reply from the engine"))),
        }
    }

    /// Reads the reply as a list of cookies. A reply of another kind is a broken
    /// invariant.
    pub fn into_cookies(self) -> (r: Result<Vec<CookieRecord>, WebViewError>)
        ensures
            match self {
                Reply::Cookies(cookies) => r == Ok::<Vec<CookieRecord>, WebViewError>(cookies),
                _ => r is Err && r->Err_0@ == ErrorModel::Internal(unexpected_reply_text()),
            },
    {
        match self {
            Reply::Cookies(cookies) => Ok(cookies),
            _ => Err(WebViewError::Internal(String::from_str("unexpected reply from the engine"))),
        }
    }
}

impl Command {
    /// The command as the engine receives it: bounds are clamped, everything
    /// else is passed on as it is.
    pub open spec fn normalized(self) -> Command {
        match self {
            Command::SetBounds(bounds) => Command::SetBounds(bounds.clamped()),
            other => other,
        }
    }

    /// What a command that the engine accepted does to the loading flag of the
    /// mirror: a load sets it, stopping clears it, anything else leaves it alone.
    pub open spec fn loading_effect(self) -> Option<bool> {
        match self {
            Command::LoadUrl(_) => Some(true),
            Command::LoadUrlWithHeaders(_, _) => Some(true),
            Command::LoadHtml(_) => Some(true),
            Command::StopLoading => Some(false),
            _ => None,
        }
    }

    /// Whether the caller needs to wait for the command: only repositioning may
    /// be posted and forgotten.
    pub open spec fn completion_of(self) -> Completion {
        match self {
            Command::SetBounds(_) => Completion::FireAndForget,
            _ => Completion::Awaited,
        }
    }

    /// Brings the command into the form in which the engine receives it.
    pub fn normalize(self) -> (c: Command)
        ensures
            c == self.normalized(),
            c.loading_effect() == self.loading_effect(),
            c.completion_of() == self.completion_of(),
    {
        match self {
            Command::SetBounds(bounds) => Command::SetBounds(bounds.clamp()),
            other => other,
        }
    }

    /// What accepting this command does to the loading flag.
    pub fn loading_after(&self) -> (effect: Option<bool>)
        ensures
            effect == self.loading_effect(),
    {
        match self {
            Command::LoadUrl(_) => Some(true),
            Command::LoadUrlWithHeaders(_, _) => Some(true),
            Command::LoadHtml(_) => Some(true),
            Command::StopLoading => Some(false),
            _ => None,
        }
    }

    /// Whether the caller needs to wait for this command.
    pub fn completion(&self) -> (c: Completion)
        ensures
            c == self.completion_of(),
    {
        match self {
            Command::SetBounds(_) => Completion::FireAndForget,
            _ => Completion::Awaited,
        }
    }
}

/// Everything the engine needs to build a web view inside a parent window.
#[derive(Clone, Debug, PartialEq, Eq)]
pub struct CreateRequest {
    /// The window or view to embed in.
    pub window: NativeWindowRef,
    /// Where the web view goes: the top left corner of the parent, at the size
    /// asked for, never smaller than one pixel in either direction.
    pub bounds: Bounds,
    /// The first page to show.
    pub url: String,
    /// The user agent to present, where the default is not wanted.
    pub user_agent: Option<String>,
    /// The windowing toolkit has to be initialised before the web view is built.
    pub init_toolkit: bool,
}

/// Why the engine could not build a web view.
#[derive(Clone, Debug, PartialEq, Eq)]
pub enum BuildFailure {
    /// The windowing toolkit could not be initialised; its own words.
    Toolkit(String),
    /// The engine refused to build the web view; its own words.
    Engine(String),
}

} // verus!
