//! Deciding where an operation on a web view runs.

use vstd::prelude::*;
use crate::error::WebViewError;
use crate::handle::Platform;

verus! {

/// How a platform brings an operation onto the thread that owns its web views.
#[derive(Clone, Copy, Debug, PartialEq, Eq, Structural)]
pub enum Strategy {
    /// Operations run where they are called; a call from a foreign thread is
    /// refused by the affinity check of the registry.
    Direct,
    /// The main thread owns the web views and offers a reentrant way to run
    /// work on it.
    ReentrantMain,
    /// One worker thread, started once, owns the web views and runs everything
    /// that touches them.
    DedicatedThread,
}

/// Whether the caller needs the outcome of an operation.
#[derive(Clone, Copy, Debug, PartialEq, Eq, Structural)]
pub enum Completion {
    /// The caller waits for the result.
    Awaited,
    /// The caller goes on at once; the operation may be repeated without harm
    /// and the last one posted prevails.
    FireAndForget,
}

/// Where the operation runs.
#[derive(Clone, Copy, Debug, PartialEq, Eq, Structural)]
pub enum Route {
    /// On the calling thread, now.
    Inline,
    /// On the designated thread, while the caller blocks for the result.
    PostAndWait,
    /// On the designated thread, later; the caller gets success at once.
    PostAndForget,
}

/// The strategy each platform uses.
pub open spec fn strategy_of(platform: Platform) -> Strategy {
    match platform {
        Platform::MacOs => Strategy::ReentrantMain,
        Platform::Linux => Strategy::DedicatedThread,
        Platform::Windows => Strategy::Direct,
        Platform::Other => Strategy::Direct,
    }
}

/// The route of an operation: inline wherever the caller already is on the
/// designated thread or the strategy does not marshal; posted otherwise, waiting
/// for the result unless the caller does not need it.
pub open spec fn route_of(strategy: Strategy, on_designated_thread: bool, completion: Completion)
    -> Route {
    if strategy == Strategy::Direct || on_designated_thread {
        Route::Inline
    } else if completion == Completion::FireAndForget {
        Route::PostAndForget
    } else {
        Route::PostAndWait
    }
}

/// The strategy that `platform` uses.
pub fn strategy_for(platform: Platform) -> (strategy: Strategy)
    ensures
        strategy == strategy_of(platform),
{
    match platform {
        Platform::MacOs => Strategy::ReentrantMain,
        Platform::Linux => Strategy::DedicatedThread,
        Platform::Windows => Strategy::Direct,
        Platform::Other => Strategy::Direct,
    }
}

/// Decides where an operation runs.
pub fn route(strategy: Strategy, on_designated_thread: bool, completion: Completion) -> (r: Route)
    ensures
        r == route_of(strategy, on_designated_thread, completion),
{
    match strategy {
        Strategy::Direct => Route::Inline,
        _ => {
            if on_designated_thread {
                Route::Inline
            } else {
                match completion {
                    Completion::FireAndForget => Route::PostAndForget,
                    Completion::Awaited => Route::PostAndWait,
                }
            }
        },
    }
}

/// Runs `f` on the calling thread, which is the designated one, and hands its
/// result through.
pub fn run_on_main_thread<F, R>(f: F) -> (r: Result<R, WebViewError>) where
    F: FnOnce() -> Result<R, WebViewError>,

    requires
        f.requires(()),
    ensures
        f.ensures((), r),
{
    f()
}

/// An operation issued on the designated thread always runs at once, and one
/// whose result is awaited is never dropped into the background.
pub proof fn lemma_route_rules(strategy: Strategy, on_designated_thread: bool, completion: Completion)
    ensures
        on_designated_thread ==> route_of(strategy, on_designated_thread, completion)
            == Route::Inline,
        completion == Completion::Awaited ==> route_of(strategy, on_designated_thread, completion)
            != Route::PostAndForget,
        route_of(strategy, on_designated_thread, completion) == Route::PostAndForget ==> strategy
            != Strategy::Direct && !on_designated_thread,
{
}

} // verus!
