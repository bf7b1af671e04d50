//! The table of live web views and the threads that own them.

use std::collections::HashMap;
use vstd::prelude::*;
use crate::error::{identifiers_exhausted_text, ErrorModel, WebViewError};
use crate::state::{texts, EngineEvent, StateModel, WebViewState};

verus! {

broadcast use vstd::std_specs::hash::group_hash_axioms;

/// The first identifier a registry hands out.
pub const FIRST_ID: u64 = 1;

/// The identity of a thread, as a number that no two live threads share.
#[derive(Clone, Copy, Debug, PartialEq, Eq, Structural)]
pub struct ThreadToken {
    pub raw: u64,
}

/// One live web view: the native widget, the thread that may touch it, and its mirror.
#[derive(Debug)]
pub struct Entry<W> {
    /// The native widget; the entry is its only owner.
    pub widget: W,
    /// The thread that created the widget, the only one allowed to use or destroy it.
    pub owner: ThreadToken,
    /// The widget's attributes as last reported by the engine.
    pub state: WebViewState,
}

/// The mathematical content of an [`Entry`].
pub ghost struct EntryModel<W> {
    pub widget: W,
    pub owner: ThreadToken,
    pub state: StateModel,
}

impl<W> View for Entry<W> {
    type V = EntryModel<W>;

    open spec fn view(&self) -> EntryModel<W> {
        EntryModel { widget: self.widget, owner: self.owner, state: self.state@ }
    }
}

/// The mathematical content of a [`Registry`].
pub ghost struct RegistryModel<W> {
    /// The identifier that the next registration receives.
    pub next_id: u64,
    /// The live web views by identifier.
    pub live: Map<u64, EntryModel<W>>,
}

impl<W> RegistryModel<W> {
    /// Every live identifier was handed out in the past: it is at least
    /// [`FIRST_ID`] and below the next one.
    pub open spec fn wf(self) -> bool {
        &&& self.next_id >= FIRST_ID
        &&& forall|id: u64| #[trigger]
            self.live.contains_key(id) ==> FIRST_ID <= id < self.next_id
    }

    /// The registry before anything was registered.
    pub open spec fn empty() -> RegistryModel<W> {
        RegistryModel { next_id: FIRST_ID, live: Map::empty() }
    }

    /// Whether a fresh identifier is left to hand out.
    pub open spec fn has_capacity(self) -> bool {
        self.next_id < u64::MAX
    }

    /// The registry after `entry` was registered under the next identifier.
    pub open spec fn registered(self, entry: EntryModel<W>) -> RegistryModel<W>
        recommends
            self.has_capacity(),
    {
        RegistryModel {
            next_id: (self.next_id + 1) as u64,
            live: self.live.insert(self.next_id, entry),
        }
    }

    /// The registry after the entry under `id` was taken out.
    pub open spec fn removed(self, id: u64) -> RegistryModel<W> {
        RegistryModel { live: self.live.remove(id), ..self }
    }

    /// The registry with the mirror of `id` replaced by `state`.
    pub open spec fn with_state(self, id: u64, state: StateModel) -> RegistryModel<W>
        recommends
            self.live.contains_key(id),
    {
        RegistryModel {
            live: self.live.insert(id, EntryModel { state, ..self.live[id] }),
            ..self
        }
    }

    /// What a look-up of `id` by the thread `caller` finds: the entry, or the
    /// reason why the caller may not have it. The owner is compared only
    /// when `thread_check` is set.
    pub open spec fn check(self, id: u64, thread_check: bool, caller: ThreadToken) -> Result<
        EntryModel<W>,
        ErrorModel,
    > {
        if !self.live.contains_key(id) {
            Err(ErrorModel::WebViewNotFound(id))
        } else if thread_check && self.live[id].owner != caller {
            Err(ErrorModel::WrongThread(id))
        } else {
            Ok(self.live[id])
        }
    }
}

/// The table of live web views, indexed by identifier.
///
/// Identifiers start at [`FIRST_ID`], grow by one with each registration and are
/// never handed out again, not even after the web view is gone.
pub struct Registry<W> {
    next_id: u64,
    table: HashMap<u64, Entry<W>>,
}

impl<W> View for Registry<W> {
    type V = RegistryModel<W>;

    closed spec fn view(&self) -> RegistryModel<W> {
        RegistryModel {
            next_id: self.next_id,
            live: self.table@.map_values(|e: Entry<W>| e@),
        }
    }
}

impl<W> Registry<W> {
    /// What holds of every registry at all times: each stored identifier was
    /// handed out in the past.
    #[verifier::type_invariant]
    pub closed spec fn well_formed(self) -> bool {
        &&& self.next_id >= FIRST_ID
        &&& forall|id: u64| #[trigger]
            self.table@.contains_key(id) ==> FIRST_ID <= id < self.next_id
    }

    /// The model of a registry is well formed.
    pub proof fn lemma_well_formed(self)
        requires
            self.well_formed(),
        ensures
            self@.wf(),
    {
    }

    /// The entries as they are stored, by identifier.
    pub closed spec fn entries(&self) -> Map<u64, Entry<W>> {
        self.table@
    }

    /// The stored entries are what the model shows, entry by entry.
    pub proof fn lemma_entries_match_model(&self)
        ensures
            self.entries().dom() == self@.live.dom(),
            forall|id: u64| #[trigger]
                self.entries().contains_key(id) ==> self.entries()[id]@ == self@.live[id],
    {
        assert(self.entries().dom() =~= self@.live.dom());
    }

    /// Moves the table out for an update, leaving an empty one in its place until
    /// the updated table is stored again.
    fn take_table(&mut self) -> (table: HashMap<u64, Entry<W>>)
        ensures
            table@ == old(self).table@,
            final(self).table@ == Map::<u64, Entry<W>>::empty(),
            final(self).next_id == old(self).next_id,
            forall|id: u64| #[trigger] table@.contains_key(id) ==> FIRST_ID <= id < old(self).next_id,
            old(self).next_id >= FIRST_ID,
    {
        proof {
            use_type_invariant(&*self);
        }
        let mut table: HashMap<u64, Entry<W>> = HashMap::new();
        std::mem::swap(&mut self.table, &mut table);
        table
    }

    /// A registry with no web view in it.
    pub fn new() -> (registry: Registry<W>)
        ensures
            registry@ == RegistryModel::<W>::empty(),
            registry@.wf(),
    {
        let registry = Registry { next_id: FIRST_ID, table: HashMap::new() };
        assert(registry@.live =~= Map::empty());
        registry
    }

    /// A registry with no web view in it that hands out identifiers from
    /// `first_id` on, or from [`FIRST_ID`] if `first_id` is below it.
    pub fn starting_at(first_id: u64) -> (registry: Registry<W>)
        ensures
            registry@ == (RegistryModel::<W> {
                next_id: if first_id < FIRST_ID {
                    FIRST_ID
                } else {
                    first_id
                },
                live: Map::empty(),
            }),
            registry@.wf(),
    {
        let next_id: u64 = if first_id < FIRST_ID {
            FIRST_ID
        } else {
            first_id
        };
        let registry = Registry { next_id, table: HashMap::new() };
        assert(registry@.live =~= Map::empty());
        registry
    }

    /// The identifier that the next registration receives.
    pub fn next_id(&self) -> (id: u64)
        ensures
            id == self@.next_id,
            self@.wf(),
    {
        proof {
            use_type_invariant(self);
        }
        self.next_id
    }

    /// How many web views are live.
    pub fn len(&self) -> (n: usize)
        ensures
            n == self@.live.len(),
    {
        proof {
            self.lemma_entries_match_model();
        }
        self.table.len()
    }

    /// Whether `id` names a live web view.
    pub fn contains(&self, id: u64) -> (b: bool)
        ensures
            b == self@.live.contains_key(id),
    {
        self.table.contains_key(&id)
    }

    /// Whether a fresh identifier is left to hand out.
    pub fn has_capacity(&self) -> (b: bool)
        ensures
            b == self@.has_capacity(),
    {
        self.next_id < u64::MAX
    }

    /// Stores a freshly created widget and returns its new identifier.
    ///
    /// `owner` is the calling thread; from now on it alone may use or destroy the
    /// widget. Registration only fails once every identifier has been handed out.
    pub fn register(&mut self, widget: W, state: WebViewState, owner: ThreadToken) -> (r: Result<
        u64,
        WebViewError,
    >)
        ensures
            old(self)@.has_capacity() ==> r == Ok::<u64, WebViewError>(old(self)@.next_id)
                && final(self)@ == old(self)@.registered(
                EntryModel { widget, owner, state: state@ },
            ),
            !old(self)@.has_capacity() ==> r is Err && r->Err_0@ == ErrorModel::Internal(
                identifiers_exhausted_text(),
            ) && final(self)@ == old(self)@,
            final(self)@.wf(),
    {
        proof {
            use_type_invariant(&*self);
        }
        if self.next_id == u64::MAX {
            return Err(WebViewError::identifiers_exhausted());
        }
        let id: u64 = self.next_id;
        let mut table = self.take_table();
        table.insert(id, Entry { widget, owner, state });
        self.next_id = id + 1;
        self.table = table;
        assert(self@.live =~= old(self)@.live.insert(
            id,
            EntryModel { widget, owner, state: state@ },
        ));
        Ok(id)
    }

    /// The entry of `id`, if it is live, whoever asks.
    pub fn peek(&self, id: u64) -> (r: Option<&Entry<W>>)
        ensures
            r is Some == self@.live.contains_key(id),
            r is Some ==> *r->Some_0 == self.entries()[id] && r->Some_0@ == self@.live[id],
            self@.wf(),
    {
        proof {
            use_type_invariant(self);
        }
        self.table.get(&id)
    }

    /// Finds the entry of `id` for the thread `caller`.
    ///
    /// An unknown identifier is reported as not found. With `thread_check` set, an
    /// entry owned by another thread is refused as well.
    pub fn lookup(&self, id: u64, thread_check: bool, caller: ThreadToken) -> (r: Result<
        &Entry<W>,
        WebViewError,
    >)
        ensures
            match self@.check(id, thread_check, caller) {
                Ok(entry) => r is Ok && *r->Ok_0 == self.entries()[id] && r->Ok_0@ == entry,
                Err(e) => r is Err && r->Err_0@ == e,
            },
            self@.wf(),
    {
        match self.peek(id) {
            None => Err(WebViewError::WebViewNotFound(id)),
            Some(entry) => {
                if thread_check && entry.owner.raw != caller.raw {
                    Err(WebViewError::WrongThread(id))
                } else {
                    Ok(entry)
                }
            },
        }
    }

    /// Runs `f` on the entry of `id`, provided the caller may have it.
    ///
    /// `f` is not called when the identifier is unknown, nor, with `thread_check`
    /// set, when the entry belongs to another thread.
    pub fn with_entry<F, R>(&self, id: u64, thread_check: bool, caller: ThreadToken, f: F) -> (r:
        Result<R, WebViewError>) where F: FnOnce(&Entry<W>) -> Result<R, WebViewError>
        requires
            self@.check(id, thread_check, caller) is Ok ==> f.requires((&self.entries()[id],)),
        ensures
            match self@.check(id, thread_check, caller) {
                Ok(_) => f.ensures((&self.entries()[id],), r),
                Err(e) => r is Err && r->Err_0@ == e,
            },
    {
        match self.lookup(id, thread_check, caller) {
            Ok(entry) => f(entry),
            Err(e) => Err(e),
        }
    }

    /// Runs `f` on the widget of `id`, provided the calling thread owns it.
    pub fn with_webview<F, R>(&self, id: u64, caller: ThreadToken, f: F) -> (r: Result<
        R,
        WebViewError,
    >) where F: FnOnce(&W) -> Result<R, WebViewError>
        requires
            self@.check(id, true, caller) is Ok ==> f.requires((&self@.live[id].widget,)),
        ensures
            match self@.check(id, true, caller) {
                Ok(entry) => f.ensures((&entry.widget,), r),
                Err(e) => r is Err && r->Err_0@ == e,
            },
    {
        match self.lookup(id, true, caller) {
            Ok(entry) => f(&entry.widget),
            Err(e) => Err(e),
        }
    }

    /// Takes the entry of `id` out of the table and hands it to the caller, who
    /// destroys the widget.
    ///
    /// Only the owning thread may do so. An unknown identifier is no failure:
    /// there is nothing to hand over. Once removed, the identifier stays dead.
    pub fn unregister(&mut self, id: u64, caller: ThreadToken) -> (r: Result<
        Option<Entry<W>>,
        WebViewError,
    >)
        ensures
            match old(self)@.check(id, true, caller) {
                Ok(entry) => {
                    &&& r is Ok
                    &&& r->Ok_0 is Some
                    &&& r->Ok_0->Some_0@ == entry
                    &&& final(self)@ == old(self)@.removed(id)
                },
                Err(ErrorModel::WrongThread(_)) => {
                    &&& r == Err::<Option<Entry<W>>, WebViewError>(WebViewError::WrongThread(id))
                    &&& final(self)@ == old(self)@
                },
                Err(_) => {
                    &&& r == Ok::<Option<Entry<W>>, WebViewError>(None)
                    &&& final(self)@ == old(self)@
                },
            },
            final(self)@.wf(),
    {
        proof {
            use_type_invariant(&*self);
        }
        match self.table.get(&id) {
            None => {
                return Ok(None);
            },
            Some(entry) => {
                if entry.owner.raw != caller.raw {
                    return Err(WebViewError::WrongThread(id));
                }
            },
        }
        let mut table = self.take_table();
        let taken = table.remove(&id);
        self.table = table;
        assert(self@.live =~= old(self)@.live.remove(id));
        Ok(taken)
    }

    /// Records whether a page load is under way in `id`. Returns whether `id` is
    /// live; if it is not, nothing changes.
    pub fn mark_loading(&mut self, id: u64, loading: bool) -> (found: bool)
        ensures
            found == old(self)@.live.contains_key(id),
            found ==> final(self)@ == old(self)@.with_state(
                id,
                old(self)@.live[id].state.with_loading(loading),
            ),
            !found ==> final(self)@ == old(self)@,
            final(self)@.wf(),
    {
        let mut table = self.take_table();
        match table.remove(&id) {
            None => {
                self.table = table;
                assert(self@.live =~= old(self)@.live);
                false
            },
            Some(entry) => {
                let mut entry = entry;
                entry.state.set_loading(loading);
                table.insert(id, entry);
                self.table = table;
                assert(self@.live =~= old(self)@.with_state(
                    id,
                    old(self)@.live[id].state.with_loading(loading),
                ).live);
                true
            },
        }
    }

    /// Brings the mirror of `id` up to date with what the engine reported.
    /// Returns whether `id` is live; a report about a web view that is gone
    /// changes nothing.
    pub fn notify(&mut self, id: u64, event: EngineEvent) -> (found: bool)
        ensures
            found == old(self)@.live.contains_key(id),
            found ==> final(self)@ == old(self)@.with_state(
                id,
                old(self)@.live[id].state.after(event@),
            ),
            !found ==> final(self)@ == old(self)@,
            final(self)@.wf(),
    {
        let mut table = self.take_table();
        match table.remove(&id) {
            None => {
                self.table = table;
                assert(self@.live =~= old(self)@.live);
                false
            },
            Some(entry) => {
                let mut entry = entry;
                entry.state.apply(event);
                table.insert(id, entry);
                self.table = table;
                assert(self@.live =~= old(self)@.with_state(
                    id,
                    old(self)@.live[id].state.after(event@),
                ).live);
                true
            },
        }
    }

    /// Hands out the messages that wait in `id`, oldest first, and leaves none
    /// behind. Returns nothing, and changes nothing, if `id` is not live.
    pub fn drain_messages(&mut self, id: u64) -> (r: Option<Vec<String>>)
        ensures
            r is Some == old(self)@.live.contains_key(id),
            r is Some ==> texts(r->Some_0@) == old(self)@.live[id].state.inbox && final(self)@
                == old(self)@.with_state(id, old(self)@.live[id].state.drained()),
            r is None ==> final(self)@ == old(self)@,
            final(self)@.wf(),
    {
        let mut table = self.take_table();
        match table.remove(&id) {
            None => {
                self.table = table;
                assert(self@.live =~= old(self)@.live);
                None
            },
            Some(entry) => {
                let mut entry = entry;
                let messages = entry.state.drain_messages();
                table.insert(id, entry);
                self.table = table;
                assert(self@.live =~= old(self)@.with_state(
                    id,
                    old(self)@.live[id].state.drained(),
                ).live);
                Some(messages)
            },
        }
    }
}

} // verus!
