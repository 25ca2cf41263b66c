//! The session registry: live sessions keyed by identifiers that are handed
//! out in increasing order and never reused.
use vstd::prelude::*;
use std::collections::HashMap;
use crate::error::EncodeError;

verus! {

broadcast use vstd::std_specs::hash::group_hash_axioms;

/// The mathematical state of a registry.
pub struct RegistryView<S> {
    /// The live sessions by identifier.
    pub sessions: Map<u64, S>,
    /// The identifier the next inserted session gets.
    pub next_id: nat,
}

impl<S> RegistryView<S> {
    /// Every live identifier was handed out before `next_id`.
    pub open spec fn wf(self) -> bool {
        &&& self.next_id <= u64::MAX
        &&& forall|id: u64| #[trigger] self.sessions.contains_key(id) ==> id < self.next_id
    }
}

/// The registry after taking out `id`; unchanged when `id` is not live.
pub open spec fn removal<S>(r: RegistryView<S>, id: u64) -> RegistryView<S> {
    RegistryView { sessions: r.sessions.remove(id), ..r }
}

/// Live sessions by identifier.
pub struct Registry<S> {
    sessions: HashMap<u64, S>,
    next_id: u64,
}

impl<S> View for Registry<S> {
    type V = RegistryView<S>;

    closed spec fn view(&self) -> RegistryView<S> {
        RegistryView { sessions: self.sessions@, next_id: self.next_id as nat }
    }
}

impl<S> Registry<S> {
    /// Every registry that `new` makes is well formed, and every method keeps
    /// it so.
    pub open spec fn wf(&self) -> bool {
        self@.wf()
    }

    /// An empty registry.
    pub fn new() -> (r: Registry<S>)
        ensures
            r.wf(),
            r@.sessions == Map::<u64, S>::empty(),
            r@.next_id == 0,
    {
        Registry { sessions: HashMap::new(), next_id: 0 }
    }

    /// Inserts a session under a fresh identifier and returns the identifier;
    /// fails only when every identifier has been handed out.
    pub fn insert(&mut self, session: S) -> (r: Result<u64, EncodeError>)
        requires
            old(self).wf(),
        ensures
            final(self).wf(),
            old(self)@.next_id < u64::MAX ==> (r matches Ok(id) && id == old(self)@.next_id
                && !old(self)@.sessions.contains_key(id) && final(self)@.sessions == old(
                self,
            )@.sessions.insert(id, session) && final(self)@.next_id == id + 1),
            old(self)@.next_id == u64::MAX ==> r == Err::<u64, EncodeError>(
                EncodeError::IdentifiersExhausted,
            ) && final(self)@ == old(self)@,
    {
        if self.next_id == u64::MAX {
            return Err(EncodeError::IdentifiersExhausted);
        }
        let id = self.next_id;
        self.sessions.insert(id, session);
        self.next_id = id + 1;
        assert forall|k: u64| #[trigger] self@.sessions.contains_key(k) implies k
            < self@.next_id by {
            if k != id {
                assert(old(self)@.sessions.contains_key(k));
            }
        }
        Ok(id)
    }

    /// Looks up a live session.
    pub fn get(&self, id: u64) -> (r: Result<&S, EncodeError>)
        ensures
            self@.sessions.contains_key(id) ==> (r matches Ok(s) && *s == self@.sessions[id]),
            !self@.sessions.contains_key(id) ==> r == Err::<&S, EncodeError>(
                EncodeError::SessionNotFound(id),
            ),
    {
        match self.sessions.get(&id) {
            Some(s) => Ok(s),
            None => Err(EncodeError::SessionNotFound(id)),
        }
    }

    /// Whether a session with this identifier is live.
    pub fn contains(&self, id: u64) -> (r: bool)
        ensures
            r == self@.sessions.contains_key(id),
    {
        self.sessions.contains_key(&id)
    }

    /// How many sessions are live.
    pub fn len(&self) -> (r: usize)
        ensures
            r as nat == self@.sessions.len(),
    {
        self.sessions.len()
    }

    /// Takes a live session out, handing its ownership to the caller; after
    /// that the identifier is unknown.
    pub fn remove(&mut self, id: u64) -> (r: Result<S, EncodeError>)
        requires
            old(self).wf(),
        ensures
            final(self).wf(),
            final(self)@ == removal(old(self)@, id),
            old(self)@.sessions.contains_key(id) ==> (r matches Ok(s) && s == old(
                self,
            )@.sessions[id]),
            !old(self)@.sessions.contains_key(id) ==> r == Err::<S, EncodeError>(
                EncodeError::SessionNotFound(id),
            ),
    {
        let r = self.sessions.remove(&id);
        assert(self@.sessions =~= old(self)@.sessions.remove(id));
        match r {
            Some(s) => Ok(s),
            None => Err(EncodeError::SessionNotFound(id)),
        }
    }

    /// Puts a session back under an identifier that was handed out before.
    pub(crate) fn reinsert(&mut self, id: u64, session: S)
        requires
            old(self).wf(),
            id < old(self)@.next_id,
        ensures
            final(self).wf(),
            final(self)@ == (RegistryView {
                sessions: old(self)@.sessions.insert(id, session),
                ..old(self)@
            }),
    {
        self.sessions.insert(id, session);
        assert forall|k: u64| #[trigger] self@.sessions.contains_key(k) implies k
            < self@.next_id by {
            if k != id {
                assert(old(self)@.sessions.contains_key(k));
            }
        }
    }

    /// Takes a session out if it is live; an unknown identifier is no error.
    pub fn discard(&mut self, id: u64) -> (r: Option<S>)
        requires
            old(self).wf(),
        ensures
            final(self).wf(),
            final(self)@ == removal(old(self)@, id),
            old(self)@.sessions.contains_key(id) ==> r == Some(old(self)@.sessions[id]),
            !old(self)@.sessions.contains_key(id) ==> r is None,
    {
        let r = self.sessions.remove(&id);
        assert(self@.sessions =~= old(self)@.sessions.remove(id));
        r
    }
}

} // verus!
