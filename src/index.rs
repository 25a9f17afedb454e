use vstd::prelude::*;
use crate::protocol::{Action, Event, RegistryError};
use crate::registry::{IPFSRegistry, index_name};

verus! {

/// Where an index update stands.
#[derive(PartialEq, Eq, Structural, Clone, Copy, Debug)]
pub enum IndexPhase {
    /// Waiting for the fetch of the index.
    Fetching,
    /// The local store has been asked to load and check the index.
    Delegated,
    /// The fetch failed.
    Failed,
}

/// One step of an index update.
pub open spec fn index_transition(phase: IndexPhase, e: Event) -> (IndexPhase, Action) {
    match phase {
        IndexPhase::Fetching => match e {
            Event::Completed => (IndexPhase::Delegated, Action::UpdateLocalIndex),
            Event::Failed(m) => (IndexPhase::Failed, Action::Fail(RegistryError::Fetch(m))),
            _ => (IndexPhase::Failed, Action::Fail(RegistryError::UnexpectedEvent)),
        },
        _ => (phase, Action::Idle),
    }
}

/// The actions that an index update in `phase` asks for on the events in turn.
pub open spec fn index_run(phase: IndexPhase, events: Seq<Event>) -> Seq<Action>
    decreases events.len(),
{
    if events.len() == 0 {
        Seq::empty()
    } else {
        let (p, a) = index_transition(phase, events[0]);
        seq![a] + index_run(p, events.drop_first())
    }
}

/// A refresh of the cached index: the index is always fetched anew, then
/// the local store loads and checks it.
pub struct IndexUpdate {
    phase: IndexPhase,
}

impl IndexUpdate {
    pub closed spec fn phase_spec(&self) -> IndexPhase {
        self.phase
    }

    pub fn phase(&self) -> (r: IndexPhase)
        ensures
            r == self.phase_spec(),
    {
        self.phase
    }

    /// Advances the update by one event and returns the next action.
    pub fn step(&mut self, e: Event) -> (a: Action)
        ensures
            (final(self).phase_spec(), a) == index_transition(old(self).phase_spec(), e),
    {
        match self.phase {
            IndexPhase::Fetching => match e {
                Event::Completed => {
                    self.phase = IndexPhase::Delegated;
                    Action::UpdateLocalIndex
                },
                Event::Failed(m) => {
                    self.phase = IndexPhase::Failed;
                    Action::Fail(RegistryError::Fetch(m))
                },
                _ => {
                    self.phase = IndexPhase::Failed;
                    Action::Fail(RegistryError::UnexpectedEvent)
                },
            },
            _ => Action::Idle,
        }
    }
}

impl IPFSRegistry {
    /// Starts an update of the index. The first action is always the fetch
    /// of the index from the remote root into the cache directory, whatever
    /// the cache already holds.
    pub fn update_index(&self) -> (r: (IndexUpdate, Action))
        ensures
            r.0.phase_spec() == IndexPhase::Fetching,
            r.1 matches Action::Fetch(f) && (f.remote@, f.dest@) == self.fetch_spec(index_name()),
    {
        (IndexUpdate { phase: IndexPhase::Fetching }, Action::Fetch(self.index_request()))
    }
}

} // verus!
