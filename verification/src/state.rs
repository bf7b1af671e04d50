//! The mirror of a web view's attributes that can be read from any thread.

use vstd::prelude::*;

verus! {

/// Something the rendering engine reported about a web view.
#[derive(Debug, Clone, PartialEq, Eq)]
pub enum EngineEvent {
    /// A navigation was allowed to begin.
    NavigationStarted(String),
    /// The page at this address began to load.
    LoadStarted(String),
    /// The page at this address finished loading.
    LoadFinished(String),
    /// The document's title changed.
    TitleChanged(String),
    /// The page sent a message to its host.
    MessageReceived(String),
}

/// The mathematical content of an [`EngineEvent`].
pub ghost enum EventModel {
    NavigationStarted(Seq<char>),
    LoadStarted(Seq<char>),
    LoadFinished(Seq<char>),
    TitleChanged(Seq<char>),
    MessageReceived(Seq<char>),
}

impl View for EngineEvent {
    type V = EventModel;

    open spec fn view(&self) -> EventModel {
        match self {
            EngineEvent::NavigationStarted(url) => EventModel::NavigationStarted(url@),
            EngineEvent::LoadStarted(url) => EventModel::LoadStarted(url@),
            EngineEvent::LoadFinished(url) => EventModel::LoadFinished(url@),
            EngineEvent::TitleChanged(title) => EventModel::TitleChanged(title@),
            EngineEvent::MessageReceived(body) => EventModel::MessageReceived(body@),
        }
    }
}

/// The mathematical content of a [`WebViewState`].
pub ghost struct StateModel {
    /// The address last confirmed by the engine, or the one asked for at creation.
    pub url: Seq<char>,
    /// Whether a page load is under way.
    pub loading: bool,
    /// The title of the current document.
    pub title: Seq<char>,
    /// Messages from the page that nobody has collected yet, oldest first.
    pub inbox: Seq<Seq<char>>,
}

impl StateModel {
    /// The mirror of a web view that was just created to show `url`:
    /// the load of that page is under way and nothing else is known.
    pub open spec fn initial(url: Seq<char>) -> StateModel {
        StateModel { url, loading: true, title: Seq::empty(), inbox: Seq::empty() }
    }

    /// The mirror after the engine reported `event`.
    pub open spec fn after(self, event: EventModel) -> StateModel {
        match event {
            EventModel::NavigationStarted(_) => StateModel { loading: true, ..self },
            EventModel::LoadStarted(url) => StateModel { url, loading: true, ..self },
            EventModel::LoadFinished(url) => StateModel { url, loading: false, ..self },
            EventModel::TitleChanged(title) => StateModel { title, ..self },
            EventModel::MessageReceived(body) => StateModel {
                inbox: self.inbox.push(body),
                ..self
            },
        }
    }

    /// The mirror with the loading flag set to `loading`.
    pub open spec fn with_loading(self, loading: bool) -> StateModel {
        StateModel { loading, ..self }
    }

    /// The mirror once the pending messages were collected.
    pub open spec fn drained(self) -> StateModel {
        StateModel { inbox: Seq::empty(), ..self }
    }
}

/// The views of a list of texts, in order.
pub open spec fn texts(v: Seq<String>) -> Seq<Seq<char>> {
    v.map_values(|s: String| s@)
}

/// The attributes of one web view as last reported by the engine.
///
/// The mirror is plain data: whoever shares it between threads guards it with a lock.
#[derive(Debug, Clone, PartialEq, Eq)]
pub struct WebViewState {
    url: String,
    loading: bool,
    title: String,
    inbox: Vec<String>,
}

impl View for WebViewState {
    type V = StateModel;

    closed spec fn view(&self) -> StateModel {
        StateModel {
            url: self.url@,
            loading: self.loading,
            title: self.title@,
            inbox: texts(self.inbox@),
        }
    }
}

impl WebViewState {
    /// The mirror of a web view that was just created to show `url`.
    pub fn new(url: String) -> (state: WebViewState)
        ensures
            state@ == StateModel::initial(url@),
    {
        let state = WebViewState { url, loading: true, title: String::new(), inbox: Vec::new() };
        assert(texts(state.inbox@) =~= Seq::empty());
        state
    }

    /// The address last confirmed by the engine.
    pub fn url(&self) -> (url: String)
        ensures
            url@ == self@.url,
    {
        self.url.clone()
    }

    /// Whether a page load is under way.
    pub fn is_loading(&self) -> (loading: bool)
        ensures
            loading == self@.loading,
    {
        self.loading
    }

    /// The title of the current document.
    pub fn title(&self) -> (title: String)
        ensures
            title@ == self@.title,
    {
        self.title.clone()
    }

    /// How many messages wait to be collected.
    pub fn pending_messages(&self) -> (n: usize)
        ensures
            n == self@.inbox.len(),
    {
        self.inbox.len()
    }

    /// Records `url` as the current address.
    pub fn set_url(&mut self, url: String)
        ensures
            final(self)@ == (StateModel { url: url@, ..old(self)@ }),
    {
        self.url = url;
    }

    /// Records `title` as the current title.
    pub fn set_title(&mut self, title: String)
        ensures
            final(self)@ == (StateModel { title: title@, ..old(self)@ }),
    {
        self.title = title;
    }

    /// Records whether a page load is under way.
    pub fn set_loading(&mut self, loading: bool)
        ensures
            final(self)@ == old(self)@.with_loading(loading),
    {
        self.loading = loading;
    }

    /// Appends `body` behind the messages that already wait.
    pub fn push_message(&mut self, body: String)
        ensures
            final(self)@ == (StateModel { inbox: old(self)@.inbox.push(body@), ..old(self)@ }),
    {
        self.inbox.push(body);
        assert(texts(self.inbox@) =~= texts(old(self).inbox@).push(body@));
    }

    /// Hands out the waiting messages, oldest first, and leaves none behind.
    pub fn drain_messages(&mut self) -> (messages: Vec<String>)
        ensures
            texts(messages@) == old(self)@.inbox,
            final(self)@ == old(self)@.drained(),
    {
        let mut messages: Vec<String> = Vec::new();
        std::mem::swap(&mut self.inbox, &mut messages);
        assert(texts(self.inbox@) =~= Seq::empty());
        messages
    }

    /// Brings the mirror up to date with what the engine reported.
    pub fn apply(&mut self, event: EngineEvent)
        ensures
            final(self)@ == old(self)@.after(event@),
    {
        match event {
            EngineEvent::NavigationStarted(_) => {
                self.loading = true;
            },
            EngineEvent::LoadStarted(url) => {
                self.url = url;
                self.loading = true;
            },
            EngineEvent::LoadFinished(url) => {
                self.url = url;
                self.loading = false;
            },
            EngineEvent::TitleChanged(title) => {
                self.title = title;
            },
            EngineEvent::MessageReceived(body) => {
                self.push_message(body);
            },
        }
    }
}

/// Collecting the messages twice with nothing arriving in between finds none
/// the second time.
pub proof fn lemma_second_drain_is_empty(state: StateModel)
    ensures
        state.drained().inbox == Seq::<Seq<char>>::empty(),
        state.drained().drained() == state.drained(),
{
}

/// Messages are handed out in the order in which they arrived.
pub proof fn lemma_messages_are_fifo(state: StateModel, first: Seq<char>, second: Seq<char>)
    ensures
        state.after(EventModel::MessageReceived(first)).after(
            EventModel::MessageReceived(second),
        ).inbox == state.inbox + seq![first, second],
{
    assert(state.inbox.push(first).push(second) =~= state.inbox + seq![first, second]);
}

} // verus!
