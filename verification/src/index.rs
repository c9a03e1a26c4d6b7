//! From the handle of an engine back to the session that owns the engine.

use crate::ids::BackendId;
use crate::session_map::SessionMap;
use vstd::prelude::*;

verus! {

/// The handles of the engines of the live sessions of a process.
///
/// An engine that reports an event names itself, not the session it plays
/// for. The index holds, for each session, the handle of its engine, and
/// finds the session again when the handle comes back with an event. A
/// handle that is not, or no longer, held belongs to a session that has
/// gone: its event is stale and is dropped.
#[derive(Debug)]
pub struct HandleIndex {
    sessions: SessionMap<u64>,
}

impl HandleIndex {
    /// The handle that is held for each session.
    pub closed spec fn view(&self) -> Map<BackendId, u64> {
        self.sessions@
    }

    /// Whether `handle` is held for a session.
    pub open spec fn knows(&self, handle: u64) -> bool {
        exists|id: BackendId| self@.contains_key(id) && self@[id] == handle
    }

    /// An index without sessions.
    pub fn new() -> (index: HandleIndex)
        ensures
            index@ == Map::<BackendId, u64>::empty(),
    {
        HandleIndex { sessions: SessionMap::new() }
    }

    /// Holds `handle` for `session`, in the place of the handle that was
    /// held for it, if there was one.
    pub fn bind(&mut self, session: BackendId, handle: u64)
        ensures
            final(self)@ == old(self)@.insert(session, handle),
    {
        let _ = self.sessions.replace(session, Some(handle));
    }

    /// Lets go of the handle of `session`. Where none is held, nothing
    /// changes.
    pub fn unbind(&mut self, session: BackendId)
        ensures
            final(self)@ == old(self)@.remove(session),
    {
        let _ = self.sessions.replace(session, None);
    }

    /// The handle that is held for `session`.
    pub fn handle_of(&self, session: BackendId) -> (handle: Option<u64>)
        ensures
            handle == (if self@.contains_key(session) {
                Some(self@[session])
            } else {
                None
            }),
    {
        match self.sessions.get(session) {
            Some(handle) => Some(*handle),
            None => None,
        }
    }

    /// The session whose engine has `handle`: a session for which the
    /// handle is held, and nothing exactly where it is held for none.
    pub fn resolve(&self, handle: u64) -> (session: Option<BackendId>)
        ensures
            session is Some <==> self.knows(handle),
            session matches Some(id) ==> self@.contains_key(id) && self@[id] == handle,
    {
        self.sessions.key_of(handle)
    }
}

} // verus!
