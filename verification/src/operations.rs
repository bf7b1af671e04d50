//! The operations on web views: create, use, query, destroy.
//!
//! Every operation is meant to run on the thread that the dispatch rules chose.
//! What only the rendering engine can do is handed in as a function; everything
//! around it is decided here.
//!
//! The engine's function may only be called with the widget of a web view that
//! is live and owned by the caller: nothing is assumed of it otherwise, so a
//! call on behalf of a foreign thread would not verify. The registry is
//! borrowed for the whole of an operation, so no web view is destroyed while a
//! command is carried out on it.

use vstd::prelude::*;
use crate::bounds::{make_bounds, Bounds};
use crate::command::{BuildFailure, Command, CreateRequest, Reply};
use crate::error::{identifiers_exhausted_text, ErrorModel, WebViewError};
use crate::handle::{
    raw_window_handle_from, resolution, resolved_view, AppKitProbe, NativeWindowRef, Platform,
};
use crate::registry::{EntryModel, Registry, RegistryModel, ThreadToken};
use crate::state::{texts, EngineEvent, StateModel, WebViewState};

verus! {

/// How an answer of the engine reaches the caller: a success as it is, a refusal
/// as an engine failure that keeps the engine's words.
pub open spec fn settled<T>(outcome: Result<T, String>, r: Result<T, WebViewError>) -> bool {
    match outcome {
        Ok(value) => r == Ok::<T, WebViewError>(value),
        Err(text) => r is Err && r->Err_0@ == ErrorModel::WryError(text@),
    }
}

/// Like [`settled`], for a caller that only learns whether the command went through.
pub open spec fn acknowledged<T>(outcome: Result<T, String>, r: Result<(), WebViewError>) -> bool {
    match outcome {
        Ok(_) => r == Ok::<(), WebViewError>(()),
        Err(text) => r is Err && r->Err_0@ == ErrorModel::WryError(text@),
    }
}

/// The registry after the engine answered `command` for the web view `id`:
/// an accepted command leaves its mark on the loading flag, a refused one
/// leaves everything as it was.
pub open spec fn performed<W>(
    before: RegistryModel<W>,
    id: u64,
    command: Command,
    accepted: bool,
) -> RegistryModel<W> {
    if accepted && command.loading_effect() is Some {
        before.with_state(
            id,
            before.live[id].state.with_loading(command.loading_effect()->Some_0),
        )
    } else {
        before
    }
}

/// What the engine is asked to build for a web view of the given size in `window`.
pub open spec fn creation_request(
    window: NativeWindowRef,
    platform: Platform,
    width: i32,
    height: i32,
    url: String,
    user_agent: Option<String>,
) -> CreateRequest {
    CreateRequest {
        window,
        bounds: (Bounds { x: 0, y: 0, width, height }).clamped(),
        url,
        user_agent,
        init_toolkit: platform == Platform::Linux,
    }
}

/// How the attempt to build a widget ends for the registry and for the caller.
///
/// A widget that was built is registered for the thread `caller` with a fresh
/// mirror that shows `url` as loading, and its new identifier is returned. A
/// failure of the toolkit or of the engine is reported in its own words and
/// leaves the registry as it was.
pub open spec fn created<W>(
    before: RegistryModel<W>,
    after: RegistryModel<W>,
    caller: ThreadToken,
    url: Seq<char>,
    built: Result<W, BuildFailure>,
    r: Result<u64, WebViewError>,
) -> bool {
    match built {
        Ok(widget) => if before.has_capacity() {
            &&& r == Ok::<u64, WebViewError>(before.next_id)
            &&& after == before.registered(
                EntryModel { widget, owner: caller, state: StateModel::initial(url) },
            )
        } else {
            &&& r is Err
            &&& r->Err_0@ == ErrorModel::Internal(identifiers_exhausted_text())
            &&& after == before
        },
        Err(BuildFailure::Toolkit(text)) => {
            &&& r is Err
            &&& r->Err_0@ == ErrorModel::GtkInit(text@)
            &&& after == before
        },
        Err(BuildFailure::Engine(text)) => {
            &&& r is Err
            &&& r->Err_0@ == ErrorModel::WryError(text@)
            &&& after == before
        },
    }
}

/// How an attempt to create a web view ends, given what inspection reported
/// about the parent handle.
///
/// A handle that does not resolve is reported as such and nothing is built. With
/// no identifier left nothing is built either. Otherwise the engine was asked
/// once, for exactly the request that [`creation_request`] describes, and its
/// answer was settled as [`created`] says.
pub open spec fn creation_settled<W, B>(
    before: RegistryModel<W>,
    after: RegistryModel<W>,
    platform: Platform,
    caller: ThreadToken,
    parent_handle: u64,
    width: i32,
    height: i32,
    url: String,
    user_agent: Option<String>,
    probe: AppKitProbe,
    build: B,
    r: Result<u64, WebViewError>,
) -> bool where B: FnOnce(&CreateRequest) -> Result<W, BuildFailure> {
    match resolution(platform, parent_handle, probe) {
        Err(e) => r is Err && r->Err_0@ == e && after == before,
        Ok(window) => if before.has_capacity() {
            exists|built: Result<W, BuildFailure>|
                {
                    &&& #[trigger] build.ensures(
                        (&creation_request(window, platform, width, height, url, user_agent),),
                        built,
                    )
                    &&& created(before, after, caller, url@, built, r)
                }
        } else {
            &&& r is Err
            &&& r->Err_0@ == ErrorModel::Internal(identifiers_exhausted_text())
            &&& after == before
        },
    }
}

/// Passes a success of the engine on and wraps a refusal, keeping its words.
pub fn settle<T>(outcome: Result<T, String>) -> (r: Result<T, WebViewError>)
    ensures
        settled(outcome, r),
{
    match outcome {
        Ok(value) => Ok(value),
        Err(text) => Err(WebViewError::from_engine(text)),
    }
}

/// Registers the widget the engine built, or reports why there is none.
pub fn finish_create<W>(
    registry: &mut Registry<W>,
    caller: ThreadToken,
    url: String,
    built: Result<W, BuildFailure>,
) -> (r: Result<u64, WebViewError>)
    ensures
        created(old(registry)@, final(registry)@, caller, url@, built, r),
        final(registry)@.wf(),
{
    proof {
        use_type_invariant(&*registry);
        registry.lemma_well_formed();
    }
    match built {
        Ok(widget) => registry.register(widget, WebViewState::new(url), caller),
        Err(BuildFailure::Toolkit(text)) => Err(WebViewError::from_toolkit(text)),
        Err(BuildFailure::Engine(text)) => Err(WebViewError::from_engine(text)),
    }
}

/// Creates a web view of the given size inside the window that `parent_handle`
/// names, showing `url`, and returns its identifier.
///
/// The handle is resolved first; `inspect` is consulted for it on macOS only. The
/// engine is then asked, through `build`, for a widget at the top left corner of
/// the parent. The widget is registered for the calling thread. Nothing is built
/// for a handle that does not resolve, nor when no identifier is left.
pub fn create_webview<W, I, B>(
    registry: &mut Registry<W>,
    platform: Platform,
    caller: ThreadToken,
    parent_handle: u64,
    width: i32,
    height: i32,
    url: String,
    user_agent: Option<String>,
    inspect: I,
    build: B,
) -> (r: Result<u64, WebViewError>) where
    I: FnOnce(u64) -> AppKitProbe,
    B: FnOnce(&CreateRequest) -> Result<W, BuildFailure>,

    requires
        platform == Platform::MacOs && parent_handle != 0 ==> inspect.requires((parent_handle,)),
        forall|window: NativeWindowRef|
            window.wf() ==> build.requires(
                (&#[trigger] creation_request(window, platform, width, height, url, user_agent),),
            ),
    ensures
        exists|probe: AppKitProbe|
            {
                &&& platform == Platform::MacOs && parent_handle != 0 ==> inspect.ensures(
                    (parent_handle,),
                    probe,
                )
                &&& #[trigger] creation_settled(
                    old(registry)@,
                    final(registry)@,
                    platform,
                    caller,
                    parent_handle,
                    width,
                    height,
                    url,
                    user_agent,
                    probe,
                    build,
                    r,
                )
            },
        final(registry)@.wf(),
{
    proof {
        use_type_invariant(&*registry);
        registry.lemma_well_formed();
    }
    let resolved = raw_window_handle_from(platform, parent_handle, inspect);
    let ghost probe: AppKitProbe = if platform == Platform::MacOs && parent_handle != 0 {
        choose|probe: AppKitProbe|
            inspect.ensures((parent_handle,), probe) && resolved_view(resolved) == resolution(
                platform,
                parent_handle,
                probe,
            )
    } else {
        arbitrary()
    };
    assert(resolved_view(resolved) == resolution(platform, parent_handle, probe));
    let window = match resolved {
        Ok(window) => window,
        Err(e) => {
            assert(creation_settled(
                old(registry)@,
                registry@,
                platform,
                caller,
                parent_handle,
                width,
                height,
                url,
                user_agent,
                probe,
                build,
                Err::<u64, WebViewError>(e),
            ));
            return Err(e);
        },
    };
    if !registry.has_capacity() {
        let e = WebViewError::identifiers_exhausted();
        assert(creation_settled(
            old(registry)@,
            registry@,
            platform,
            caller,
            parent_handle,
            width,
            height,
            url,
            user_agent,
            probe,
            build,
            Err::<u64, WebViewError>(e),
        ));
        return Err(e);
    }
    let ghost asked = creation_request(window, platform, width, height, url, user_agent);
    let ghost first_page = url;
    let ghost agent = user_agent;
    let request = CreateRequest {
        window,
        bounds: make_bounds(0, 0, width, height),
        url,
        user_agent,
        init_toolkit: match platform {
            Platform::Linux => true,
            _ => false,
        },
    };
    assert(request == asked);
    let built = build(&request);
    let CreateRequest { url: shown, .. } = request;
    let r = finish_create(registry, caller, shown, built);
    assert(build.ensures((&asked,), built) && created(
        old(registry)@,
        registry@,
        caller,
        first_page@,
        built,
        r,
    ));
    assert(creation_settled(
        old(registry)@,
        registry@,
        platform,
        caller,
        parent_handle,
        width,
        height,
        first_page,
        agent,
        probe,
        build,
        r,
    ));
    r
}

/// Carries out `command` on the web view `id` for the thread `caller`.
///
/// The engine is asked only if `id` is live and owned by `caller`; it receives
/// the widget and the command in its normal form. If it accepts, the mirror's
/// loading flag follows the command; if it refuses, its words are reported and
/// nothing changes.
pub fn perform<W, F>(
    registry: &mut Registry<W>,
    caller: ThreadToken,
    id: u64,
    command: Command,
    engine: F,
) -> (r: Result<Reply, WebViewError>) where F: FnOnce(&W, &Command) -> Result<Reply, String>
    requires
        old(registry)@.check(id, true, caller) is Ok ==> engine.requires(
            (&old(registry)@.live[id].widget, &command.normalized()),
        ),
    ensures
        match old(registry)@.check(id, true, caller) {
            Err(e) => r is Err && r->Err_0@ == e && final(registry)@ == old(registry)@,
            Ok(entry) => exists|outcome: Result<Reply, String>|
                {
                    &&& #[trigger] engine.ensures(
                        (&entry.widget, &command.normalized()),
                        outcome,
                    )
                    &&& settled(outcome, r)
                    &&& final(registry)@ == performed(old(registry)@, id, command, outcome is Ok)
                },
        },
        final(registry)@.wf(),
{
    let request = command.normalize();
    let outcome = match registry.lookup(id, true, caller) {
        Err(e) => {
            return Err(e);
        },
        Ok(entry) => engine(&entry.widget, &request),
    };
    match outcome {
        Ok(reply) => {
            match request.loading_after() {
                Some(loading) => {
                    registry.mark_loading(id, loading);
                },
                None => {},
            }
            Ok(reply)
        },
        Err(text) => Err(WebViewError::from_engine(text)),
    }
}

/// Moves and resizes the web view `id`. A width or height below one pixel is
/// raised to one pixel before the engine sees it.
pub fn set_bounds<W, F>(
    registry: &mut Registry<W>,
    caller: ThreadToken,
    id: u64,
    x: i32,
    y: i32,
    width: i32,
    height: i32,
    engine: F,
) -> (r: Result<(), WebViewError>) where F: FnOnce(&W, &Command) -> Result<Reply, String>
    requires
        old(registry)@.check(id, true, caller) is Ok ==> engine.requires(
            (
                &old(registry)@.live[id].widget,
                &Command::SetBounds((Bounds { x, y, width, height }).clamped()),
            ),
        ),
    ensures
        match old(registry)@.check(id, true, caller) {
            Err(e) => r is Err && r->Err_0@ == e,
            Ok(entry) => exists|outcome: Result<Reply, String>|
                {
                    &&& #[trigger] engine.ensures(
                        (
                            &entry.widget,
                            &Command::SetBounds((Bounds { x, y, width, height }).clamped()),
                        ),
                        outcome,
                    )
                    &&& acknowledged(outcome, r)
                },
        },
        final(registry)@ == old(registry)@,
        final(registry)@.wf(),
{
    match perform(registry, caller, id, Command::SetBounds(Bounds { x, y, width, height }), engine) {
        Ok(_) => Ok(()),
        Err(e) => Err(e),
    }
}

/// Navigates the web view `id` to `url`. Once the engine has accepted the
/// request, the mirror shows the web view as loading.
pub fn load_url<W, F>(
    registry: &mut Registry<W>,
    caller: ThreadToken,
    id: u64,
    url: String,
    engine: F,
) -> (r: Result<(), WebViewError>) where F: FnOnce(&W, &Command) -> Result<Reply, String>
    requires
        old(registry)@.check(id, true, caller) is Ok ==> engine.requires(
            (&old(registry)@.live[id].widget, &Command::LoadUrl(url)),
        ),
    ensures
        match old(registry)@.check(id, true, caller) {
            Err(e) => r is Err && r->Err_0@ == e && final(registry)@ == old(registry)@,
            Ok(entry) => exists|outcome: Result<Reply, String>|
                {
                    &&& #[trigger] engine.ensures((&entry.widget, &Command::LoadUrl(url)), outcome)
                    &&& acknowledged(outcome, r)
                    &&& final(registry)@ == if outcome is Ok {
                        old(registry)@.with_state(id, entry.state.with_loading(true))
                    } else {
                        old(registry)@
                    }
                },
        },
        final(registry)@.wf(),
{
    match perform(registry, caller, id, Command::LoadUrl(url), engine) {
        Ok(_) => Ok(()),
        Err(e) => Err(e),
    }
}

/// Destroys the web view `id`: its entry leaves the registry and the widget is
/// released, here and now, on the calling thread.
///
/// Only the owning thread may destroy a web view. Destroying an identifier that
/// is not live, because it never was or because it was destroyed before,
/// succeeds and does nothing.
pub fn destroy_webview<W>(registry: &mut Registry<W>, caller: ThreadToken, id: u64) -> (r: Result<
    (),
    WebViewError,
>)
    ensures
        match old(registry)@.check(id, true, caller) {
            Ok(_) => r == Ok::<(), WebViewError>(()) && final(registry)@ == old(
                registry,
            )@.removed(id),
            Err(ErrorModel::WrongThread(_)) => r == Err::<(), WebViewError>(
                WebViewError::WrongThread(id),
            ) && final(registry)@ == old(registry)@,
            Err(_) => r == Ok::<(), WebViewError>(()) && final(registry)@ == old(registry)@,
        },
        !final(registry)@.live.contains_key(id) || r is Err,
        final(registry)@.wf(),
{
    match registry.unregister(id, caller) {
        Ok(_) => Ok(()),
        Err(e) => Err(e),
    }
}

/// The address that the web view `id` shows, as last confirmed by the engine.
/// Any thread may ask.
pub fn get_url<W>(registry: &Registry<W>, id: u64) -> (r: Result<String, WebViewError>)
    ensures
        match r {
            Ok(url) => registry@.live.contains_key(id) && url@ == registry@.live[id].state.url,
            Err(e) => !registry@.live.contains_key(id) && e == WebViewError::WebViewNotFound(id),
        },
{
    match registry.peek(id) {
        Some(entry) => Ok(entry.state.url()),
        None => Err(WebViewError::WebViewNotFound(id)),
    }
}

/// Whether a page load is under way in the web view `id`. Any thread may ask.
pub fn is_loading<W>(registry: &Registry<W>, id: u64) -> (r: Result<bool, WebViewError>)
    ensures
        match r {
            Ok(loading) => registry@.live.contains_key(id) && loading
                == registry@.live[id].state.loading,
            Err(e) => !registry@.live.contains_key(id) && e == WebViewError::WebViewNotFound(id),
        },
{
    match registry.peek(id) {
        Some(entry) => Ok(entry.state.is_loading()),
        None => Err(WebViewError::WebViewNotFound(id)),
    }
}

/// The title of the document in the web view `id`. Any thread may ask.
pub fn get_title<W>(registry: &Registry<W>, id: u64) -> (r: Result<String, WebViewError>)
    ensures
        match r {
            Ok(title) => registry@.live.contains_key(id) && title@
                == registry@.live[id].state.title,
            Err(e) => !registry@.live.contains_key(id) && e == WebViewError::WebViewNotFound(id),
        },
{
    match registry.peek(id) {
        Some(entry) => Ok(entry.state.title()),
        None => Err(WebViewError::WebViewNotFound(id)),
    }
}

/// Collects the messages that the page in the web view `id` sent since the last
/// collection, oldest first. The messages are handed out once: a second
/// collection right after finds none.
pub fn drain_inbound_messages<W>(registry: &mut Registry<W>, id: u64) -> (r: Result<
    Vec<String>,
    WebViewError,
>)
    ensures
        match r {
            Ok(messages) => {
                &&& old(registry)@.live.contains_key(id)
                &&& texts(messages@) == old(registry)@.live[id].state.inbox
                &&& final(registry)@ == old(registry)@.with_state(
                    id,
                    old(registry)@.live[id].state.drained(),
                )
            },
            Err(e) => {
                &&& !old(registry)@.live.contains_key(id)
                &&& e == WebViewError::WebViewNotFound(id)
                &&& final(registry)@ == old(registry)@
            },
        },
        final(registry)@.wf(),
{
    match registry.drain_messages(id) {
        Some(messages) => Ok(messages),
        None => Err(WebViewError::WebViewNotFound(id)),
    }
}

/// Records what the engine reported about the web view `id` in its mirror.
/// A report about a web view that is gone is dropped. Returns whether the
/// report was recorded.
pub fn record_event<W>(registry: &mut Registry<W>, id: u64, event: EngineEvent) -> (recorded: bool)
    ensures
        recorded == old(registry)@.live.contains_key(id),
        recorded ==> final(registry)@ == old(registry)@.with_state(
            id,
            old(registry)@.live[id].state.after(event@),
        ),
        !recorded ==> final(registry)@ == old(registry)@,
        final(registry)@.wf(),
{
    registry.notify(id, event)
}

} // verus!
