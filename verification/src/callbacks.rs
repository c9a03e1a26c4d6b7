//! The callbacks of every live session, found by the session's identity.

use crate::ids::BackendId;
use crate::session_map::SessionMap;
use crate::utterance::{Moment, Notification};
use vstd::prelude::*;

verus! {

/// The callbacks of one session: one for each moment, each of them
/// optional.
///
/// `C` is whatever the owner of the registry can call. The library stores
/// the callbacks and finds them again; it never calls one.
#[derive(Debug)]
pub struct Callbacks<C> {
    pub utterance_begin: Option<C>,
    pub utterance_end: Option<C>,
    pub utterance_stop: Option<C>,
}

impl<C> Callbacks<C> {
    /// The callbacks of a session that has registered none.
    pub open spec fn empty() -> Callbacks<C> {
        Callbacks { utterance_begin: None, utterance_end: None, utterance_stop: None }
    }

    /// The callback for `moment`.
    pub open spec fn slot(self, moment: Moment) -> Option<C> {
        match moment {
            Moment::Begin => self.utterance_begin,
            Moment::End => self.utterance_end,
            Moment::Stop => self.utterance_stop,
        }
    }

    /// These callbacks with the one for `moment` replaced by `callback`.
    pub open spec fn with(self, moment: Moment, callback: Option<C>) -> Callbacks<C> {
        match moment {
            Moment::Begin => Callbacks { utterance_begin: callback, ..self },
            Moment::End => Callbacks { utterance_end: callback, ..self },
            Moment::Stop => Callbacks { utterance_stop: callback, ..self },
        }
    }

    /// The callbacks of a session that has registered none.
    pub fn new() -> (callbacks: Callbacks<C>)
        ensures
            callbacks == Callbacks::<C>::empty(),
    {
        Callbacks { utterance_begin: None, utterance_end: None, utterance_stop: None }
    }

    /// The callback for `moment`, if one is registered.
    pub fn get(&self, moment: Moment) -> (callback: Option<&C>)
        ensures
            callback is Some <==> self.slot(moment) is Some,
            callback matches Some(c) ==> self.slot(moment) == Some(*c),
    {
        match moment {
            Moment::Begin => self.utterance_begin.as_ref(),
            Moment::End => self.utterance_end.as_ref(),
            Moment::Stop => self.utterance_stop.as_ref(),
        }
    }

    /// Replaces the callback for `moment` by `callback`.
    pub fn set(&mut self, moment: Moment, callback: Option<C>)
        ensures
            *final(self) == old(self).with(moment, callback),
    {
        match moment {
            Moment::Begin => {
                self.utterance_begin = callback;
            },
            Moment::End => {
                self.utterance_end = callback;
            },
            Moment::Stop => {
                self.utterance_stop = callback;
            },
        }
    }
}

/// The callbacks of the live sessions of a process.
///
/// A session is entered when its facade is made and struck out when the last
/// facade of the session goes. An event of an engine can arrive on any
/// thread and at any time, also after its session has gone: the owner guards
/// the registry with one lock, and a lookup for a session that is not, or no
/// longer, entered finds nothing, which is no failure.
#[derive(Debug)]
pub struct CallbackRegistry<C> {
    sessions: SessionMap<Callbacks<C>>,
}

impl<C> CallbackRegistry<C> {
    /// The callbacks of every session that is entered.
    pub closed spec fn view(&self) -> Map<BackendId, Callbacks<C>> {
        self.sessions@
    }

    /// What a lookup of the callback of `session` for `moment` finds: the
    /// callback, where the session is entered and has one for the moment.
    pub open spec fn lookup(&self, session: BackendId, moment: Moment) -> Option<C> {
        if self@.contains_key(session) {
            self@[session].slot(moment)
        } else {
            None
        }
    }

    /// A registry without sessions.
    pub fn new() -> (registry: CallbackRegistry<C>)
        ensures
            registry@ == Map::<BackendId, Callbacks<C>>::empty(),
    {
        CallbackRegistry { sessions: SessionMap::new() }
    }

    /// Whether `session` is entered.
    pub fn contains(&self, session: BackendId) -> (entered: bool)
        ensures
            entered == self@.contains_key(session),
    {
        self.sessions.contains(session)
    }

    /// How many sessions are entered.
    pub fn len(&self) -> (len: usize)
        ensures
            len == self@.dom().len(),
            self@.dom().finite(),
    {
        self.sessions.len()
    }

    /// Enters `session`, with no callback for any moment. If the session
    /// was entered before, its callbacks are gone.
    pub fn register(&mut self, session: BackendId)
        ensures
            final(self)@ == old(self)@.insert(session, Callbacks::<C>::empty()),
    {
        let _ = self.sessions.replace(session, Some(Callbacks::new()));
    }

    /// Strikes `session` out, with its callbacks. Where it is not entered,
    /// nothing changes.
    pub fn unregister(&mut self, session: BackendId)
        ensures
            final(self)@ == old(self)@.remove(session),
    {
        let _ = self.sessions.replace(session, None);
    }

    /// Replaces the callback of `session` for `moment` by `callback`, and
    /// tells whether the session is entered. Where it is not, nothing
    /// changes.
    pub fn set(&mut self, session: BackendId, moment: Moment, callback: Option<C>) -> (entered:
        bool)
        ensures
            entered == old(self)@.contains_key(session),
            final(self)@ == (if entered {
                old(self)@.insert(session, old(self)@[session].with(moment, callback))
            } else {
                old(self)@
            }),
    {
        let ghost old_view = self@;
        match self.sessions.replace(session, None) {
            Some(mut callbacks) => {
                callbacks.set(moment, callback);
                let _ = self.sessions.replace(session, Some(callbacks));
                assert(self@ =~= old_view.insert(session, old_view[session].with(moment, callback)));
                true
            },
            None => {
                assert(self@ =~= old_view);
                false
            },
        }
    }

    /// Replaces the callback of `session` for the begin of an utterance.
    pub fn set_on_begin(&mut self, session: BackendId, callback: Option<C>) -> (entered: bool)
        ensures
            entered == old(self)@.contains_key(session),
            final(self)@ == (if entered {
                old(self)@.insert(session, old(self)@[session].with(Moment::Begin, callback))
            } else {
                old(self)@
            }),
    {
        self.set(session, Moment::Begin, callback)
    }

    /// Replaces the callback of `session` for the end of an utterance.
    pub fn set_on_end(&mut self, session: BackendId, callback: Option<C>) -> (entered: bool)
        ensures
            entered == old(self)@.contains_key(session),
            final(self)@ == (if entered {
                old(self)@.insert(session, old(self)@[session].with(Moment::End, callback))
            } else {
                old(self)@
            }),
    {
        self.set(session, Moment::End, callback)
    }

    /// Replaces the callback of `session` for the stop of an utterance.
    pub fn set_on_stop(&mut self, session: BackendId, callback: Option<C>) -> (entered: bool)
        ensures
            entered == old(self)@.contains_key(session),
            final(self)@ == (if entered {
                old(self)@.insert(session, old(self)@[session].with(Moment::Stop, callback))
            } else {
                old(self)@
            }),
    {
        self.set(session, Moment::Stop, callback)
    }

    /// The callback to call for `notification` of `session`.
    ///
    /// There is none where the session has registered none for the moment:
    /// callbacks are optional. There is none either where the session is not
    /// entered: the event is stale and is dropped.
    pub fn callback_for(&self, session: BackendId, notification: Notification) -> (callback:
        Option<&C>)
        ensures
            callback is Some <==> self.lookup(session, notification.moment) is Some,
            callback matches Some(c) ==> self.lookup(session, notification.moment) == Some(*c),
    {
        match self.sessions.get(session) {
            Some(callbacks) => callbacks.get(notification.moment),
            None => None,
        }
    }
}

} // verus!
