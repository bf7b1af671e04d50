//! What holds of a registry over every sequence of operations.

use vstd::prelude::*;
use crate::error::ErrorModel;
use crate::registry::{EntryModel, RegistryModel, ThreadToken};
use crate::state::StateModel;

verus! {

/// One change that an operation makes to a registry.
pub ghost enum Step<W> {
    /// A widget was built and is registered with this content.
    Register(EntryModel<W>),
    /// The given thread asks for the web view with this identifier to be destroyed.
    Destroy(u64, ThreadToken),
    /// The mirror of the web view with this identifier is brought to this value,
    /// by a command, a report of the engine or a collection of messages.
    Mirror(u64, StateModel),
}

impl<W> RegistryModel<W> {
    /// The registry after one step. A step that the registry refuses (no
    /// identifier left, a foreign thread, an unknown web view) changes nothing.
    pub open spec fn step(self, step: Step<W>) -> RegistryModel<W> {
        match step {
            Step::Register(entry) => if self.has_capacity() {
                self.registered(entry)
            } else {
                self
            },
            Step::Destroy(id, caller) => if self.check(id, true, caller) is Ok {
                self.removed(id)
            } else {
                self
            },
            Step::Mirror(id, state) => if self.live.contains_key(id) {
                self.with_state(id, state)
            } else {
                self
            },
        }
    }

    /// The identifier that a step hands out, if it hands one out.
    pub open spec fn issued(self, step: Step<W>) -> Option<u64> {
        match step {
            Step::Register(_) => if self.has_capacity() {
                Some(self.next_id)
            } else {
                None
            },
            _ => None,
        }
    }

    /// The registry after all of `steps`, in order.
    pub open spec fn run(self, steps: Seq<Step<W>>) -> RegistryModel<W>
        decreases steps.len(),
    {
        if steps.len() == 0 {
            self
        } else {
            self.step(steps[0]).run(steps.skip(1))
        }
    }

    /// The identifiers handed out along `steps`, in the order of their creation.
    pub open spec fn issued_along(self, steps: Seq<Step<W>>) -> Seq<u64>
        decreases steps.len(),
    {
        if steps.len() == 0 {
            Seq::empty()
        } else {
            let rest = self.step(steps[0]).issued_along(steps.skip(1));
            match self.issued(steps[0]) {
                Some(id) => seq![id] + rest,
                None => rest,
            }
        }
    }
}

/// A step keeps the registry well formed, never lowers the next identifier, and
/// never brings back an identifier that was handed out before and is not live.
pub proof fn lemma_step_keeps_order<W>(m: RegistryModel<W>, step: Step<W>)
    requires
        m.wf(),
    ensures
        m.step(step).wf(),
        m.step(step).next_id >= m.next_id,
        m.issued(step) is Some ==> m.step(step).next_id > m.next_id,
        forall|id: u64|
            id < m.next_id && #[trigger] m.step(step).live.contains_key(id)
                ==> m.live.contains_key(id),
{
}

/// Identifiers are strictly increasing, whatever is created and destroyed: over
/// any sequence of operations each identifier handed out is greater than the
/// one before, none was handed out earlier, and so no value is ever returned
/// twice.
pub proof fn lemma_identifiers_strictly_increase<W>(m: RegistryModel<W>, steps: Seq<Step<W>>)
    requires
        m.wf(),
    ensures
        m.run(steps).wf(),
        m.run(steps).next_id >= m.next_id,
        forall|i: int|
            0 <= i < m.issued_along(steps).len() ==> m.next_id <= #[trigger] m.issued_along(
                steps,
            )[i] < m.run(steps).next_id,
        forall|i: int, j: int|
            0 <= i < j < m.issued_along(steps).len() ==> #[trigger] m.issued_along(steps)[i]
                < #[trigger] m.issued_along(steps)[j],
    decreases steps.len(),
{
    if steps.len() > 0 {
        let next = m.step(steps[0]);
        lemma_step_keeps_order(m, steps[0]);
        lemma_identifiers_strictly_increase(next, steps.skip(1));
        let rest = next.issued_along(steps.skip(1));
        match m.issued(steps[0]) {
            Some(id) => {
                let all = m.issued_along(steps);
                assert(all == seq![id] + rest);
                assert(all[0] == id);
                assert forall|i: int| 1 <= i < all.len() implies all[i] == rest[i - 1] by {}
                assert forall|i: int, j: int| 0 <= i < j < all.len() implies all[i] < all[j] by {
                    assert(all[j] == rest[j - 1]);
                    if i > 0 {
                        assert(all[i] == rest[i - 1]);
                    }
                }
            },
            None => {},
        }
    }
}

/// No identifier is handed out twice.
pub proof fn lemma_identifiers_never_repeat<W>(
    m: RegistryModel<W>,
    steps: Seq<Step<W>>,
    i: int,
    j: int,
)
    requires
        m.wf(),
        0 <= i < m.issued_along(steps).len(),
        0 <= j < m.issued_along(steps).len(),
        i != j,
    ensures
        m.issued_along(steps)[i] != m.issued_along(steps)[j],
        !m.live.contains_key(m.issued_along(steps)[i]),
{
    lemma_identifiers_strictly_increase(m, steps);
}

/// An identifier that was handed out and is no longer live stays dead: after any
/// further operations it is still unknown to every thread.
pub proof fn lemma_dead_identifier_stays_dead<W>(
    m: RegistryModel<W>,
    id: u64,
    steps: Seq<Step<W>>,
)
    requires
        m.wf(),
        id < m.next_id,
        !m.live.contains_key(id),
    ensures
        !m.run(steps).live.contains_key(id),
        forall|thread_check: bool, caller: ThreadToken| #[trigger]
            m.run(steps).check(id, thread_check, caller) == Err::<EntryModel<W>, ErrorModel>(
                ErrorModel::WebViewNotFound(id),
            ),
    decreases steps.len(),
{
    if steps.len() > 0 {
        lemma_step_keeps_order(m, steps[0]);
        lemma_dead_identifier_stays_dead(m.step(steps[0]), id, steps.skip(1));
    }
}

/// Once a web view was destroyed by its owner, every later operation on its
/// identifier finds nothing, and destroying it again changes nothing.
pub proof fn lemma_destroy_is_final<W>(
    m: RegistryModel<W>,
    id: u64,
    owner: ThreadToken,
    steps: Seq<Step<W>>,
    caller: ThreadToken,
)
    requires
        m.wf(),
        m.check(id, true, owner) is Ok,
    ensures
        m.step(Step::Destroy(id, owner)) == m.removed(id),
        !m.removed(id).run(steps).live.contains_key(id),
        forall|thread_check: bool, anyone: ThreadToken| #[trigger]
            m.removed(id).run(steps).check(id, thread_check, anyone) == Err::<
                EntryModel<W>,
                ErrorModel,
            >(ErrorModel::WebViewNotFound(id)),
        m.removed(id).run(steps).step(Step::Destroy(id, caller)) == m.removed(id).run(steps),
{
    assert(m.live.contains_key(id));
    lemma_dead_identifier_stays_dead(m.removed(id), id, steps);
}

/// A web view is refused to every thread but its owner, and to no one else:
/// with the affinity check on, a look-up succeeds exactly for the owner of a
/// live web view and names the wrong thread exactly for a live web view owned
/// by another.
pub proof fn lemma_affinity_is_enforced<W>(m: RegistryModel<W>, id: u64, caller: ThreadToken)
    ensures
        m.check(id, true, caller) is Ok <==> m.live.contains_key(id) && m.live[id].owner == caller,
        m.check(id, true, caller) == Err::<EntryModel<W>, ErrorModel>(ErrorModel::WrongThread(id))
            <==> m.live.contains_key(id) && m.live[id].owner != caller,
        m.check(id, false, caller) is Ok <==> m.live.contains_key(id),
{
}

} // verus!
