//! The queue of pending utterances of an engine that plays one at a time.

use crate::utterance::{
    effects_view, notify, utterances_view, Effect, EffectView, Moment, Notification, Utterance,
    UtteranceView,
};
use std::collections::VecDeque;
use vstd::prelude::*;

verus! {

/// The effects that start the playback of `record`: the engine is told to
/// play it, then its begin is announced.
pub open spec fn start_effects(record: UtteranceView) -> Seq<EffectView> {
    seq![EffectView::Play(record), notify(Moment::Begin, record.id)]
}

/// The announcements that each of `pending` was stopped, in queue order.
pub open spec fn stop_notifications(pending: Seq<UtteranceView>) -> Seq<EffectView> {
    Seq::new(pending.len(), |i: int| notify(Moment::Stop, pending[i].id))
}

/// The effects of stopping a queue that holds `pending`: none where it is
/// empty; else the stop of each record is announced, in queue order, and
/// then the engine is told to fall silent.
pub open spec fn stop_effects(pending: Seq<UtteranceView>) -> Seq<EffectView> {
    if pending.len() == 0 {
        Seq::empty()
    } else {
        stop_notifications(pending).push(EffectView::Halt)
    }
}

/// The queue after `record` was submitted to a queue that held `pending`.
pub open spec fn pending_after_speak(
    pending: Seq<UtteranceView>,
    record: UtteranceView,
    interrupt: bool,
) -> Seq<UtteranceView> {
    if interrupt {
        seq![record]
    } else {
        pending.push(record)
    }
}

/// The effects of submitting `record` to a queue that holds `pending`.
///
/// With `interrupt` the queue is stopped first. The record is then appended,
/// and where nothing is ahead of it its playback starts at once.
pub open spec fn speak_effects(
    pending: Seq<UtteranceView>,
    record: UtteranceView,
    interrupt: bool,
) -> Seq<EffectView> {
    if interrupt {
        stop_effects(pending) + start_effects(record)
    } else if pending.len() == 0 {
        start_effects(record)
    } else {
        Seq::empty()
    }
}

/// The queue after the engine has finished the record at the head of
/// `pending`.
pub open spec fn pending_after_finish(pending: Seq<UtteranceView>) -> Seq<UtteranceView> {
    if pending.len() == 0 {
        pending
    } else {
        pending.drop_first()
    }
}

/// The effects of the engine finishing the record at the head of `pending`:
/// its end is announced, and the playback of the record behind it starts,
/// with that record's own snapshot. An event that finds the queue empty is
/// stale and has no effect.
pub open spec fn finish_effects(pending: Seq<UtteranceView>) -> Seq<EffectView> {
    if pending.len() == 0 {
        Seq::empty()
    } else if pending.len() == 1 {
        seq![notify(Moment::End, pending[0].id)]
    } else {
        seq![notify(Moment::End, pending[0].id)] + start_effects(pending[1])
    }
}

/// The effects of the engine refusing to play the record at the head of
/// `pending`: the record leaves unannounced, and the playback of the record
/// behind it starts.
pub open spec fn reject_effects(pending: Seq<UtteranceView>) -> Seq<EffectView> {
    if pending.len() <= 1 {
        Seq::empty()
    } else {
        start_effects(pending[1])
    }
}

/// The pending utterances of one session, first in first out.
///
/// The session is idle while the queue is empty. While it is not, the record
/// at its head is the one that the engine is playing, and no other is: a
/// record behind the head waits until the head has left.
#[derive(Debug)]
pub struct UtteranceQueue {
    pending: VecDeque<Utterance>,
}

impl View for UtteranceQueue {
    type V = Seq<UtteranceView>;

    closed spec fn view(&self) -> Seq<UtteranceView> {
        utterances_view(self.pending@)
    }
}

impl UtteranceQueue {
    /// Whether the session is speaking: the queue is not empty.
    pub open spec fn spec_is_speaking(&self) -> bool {
        self@.len() > 0
    }

    /// An empty queue.
    pub fn new() -> (queue: UtteranceQueue)
        ensures
            queue@ == Seq::<UtteranceView>::empty(),
    {
        let queue = UtteranceQueue { pending: VecDeque::new() };
        assert(queue@ =~= Seq::<UtteranceView>::empty());
        queue
    }

    /// How many utterances are pending, the one being played included.
    pub fn len(&self) -> (len: usize)
        ensures
            len == self@.len(),
    {
        self.pending.len()
    }

    /// Whether the session is speaking.
    #[verifier::when_used_as_spec(spec_is_speaking)]
    pub fn is_speaking(&self) -> (speaking: bool)
        ensures
            speaking == self.spec_is_speaking(),
    {
        self.pending.len() > 0
    }

    /// Stops the session: every pending utterance is announced as stopped,
    /// in queue order, the queue is emptied and the engine is told to fall
    /// silent. On an idle session nothing happens.
    pub fn stop(&mut self) -> (effects: Vec<Effect>)
        ensures
            final(self)@ == Seq::<UtteranceView>::empty(),
            effects_view(effects@) == stop_effects(old(self)@),
    {
        let mut effects: Vec<Effect> = Vec::new();
        let n: usize = self.pending.len();
        if n == 0 {
            assert(self@ =~= Seq::<UtteranceView>::empty());
            assert(effects_view(effects@) =~= stop_effects(self@));
            return effects;
        }
        let mut i: usize = 0;
        while i < n
            invariant
                i <= n,
                n == self.pending@.len(),
                *self == *old(self),
                effects_view(effects@) == stop_notifications(self@).subrange(0, i as int),
            decreases n - i,
        {
            let id = self.pending[i].id;
            let ghost announced = effects_view(effects@);
            effects.push(Effect::Notify(Notification { moment: Moment::Stop, utterance: id }));
            proof {
                assert(self@[i as int] == self.pending@[i as int]@);
                assert(effects_view(effects@) =~= announced.push(notify(Moment::Stop, id)));
                assert(announced.push(notify(Moment::Stop, id)) =~= stop_notifications(
                    self@,
                ).subrange(0, i + 1));
            }
            i += 1;
        }
        let ghost announced = effects_view(effects@);
        effects.push(Effect::Halt);
        proof {
            assert(announced =~= stop_notifications(self@));
            assert(effects_view(effects@) =~= announced.push(EffectView::Halt));
        }
        self.pending.clear();
        assert(self@ =~= Seq::<UtteranceView>::empty());
        effects
    }

    /// Submits `record`.
    ///
    /// With `interrupt` the session is stopped first. The record joins the
    /// end of the queue. Where the queue was empty by then, the engine is
    /// told to play the record and its begin is announced; where it was not,
    /// the record waits and nothing is announced yet.
    pub fn speak(&mut self, record: Utterance, interrupt: bool) -> (effects: Vec<Effect>)
        ensures
            final(self)@ == pending_after_speak(old(self)@, record@, interrupt),
            effects_view(effects@) == speak_effects(old(self)@, record@, interrupt),
    {
        let mut effects: Vec<Effect> = if interrupt {
            self.stop()
        } else {
            Vec::new()
        };
        let ghost stopped = effects_view(effects@);
        if self.pending.len() == 0 {
            let id = record.id;
            effects.push(Effect::Play(record.clone()));
            effects.push(Effect::Notify(Notification { moment: Moment::Begin, utterance: id }));
            assert(effects_view(effects@) =~= stopped + start_effects(record@));
        }
        self.pending.push_back(record);
        assert(self@ =~= pending_after_speak(old(self)@, record@, interrupt));
        assert(effects_view(effects@) =~= speak_effects(old(self)@, record@, interrupt));
        effects
    }

    /// Takes note that the engine has played the head of the queue to its
    /// end.
    ///
    /// The head leaves and its end is announced. Where a record waited
    /// behind it, the engine is told to play that record, with the rate,
    /// pitch, volume and voice that the record itself holds, and its begin is
    /// announced. An event that finds the queue empty changes nothing.
    pub fn finish(&mut self) -> (effects: Vec<Effect>)
        ensures
            final(self)@ == pending_after_finish(old(self)@),
            effects_view(effects@) == finish_effects(old(self)@),
    {
        let mut effects: Vec<Effect> = Vec::new();
        match self.pending.pop_front() {
            None => {
                assert(effects_view(effects@) =~= finish_effects(old(self)@));
            },
            Some(ended) => {
                effects.push(Effect::Notify(Notification { moment: Moment::End, utterance: ended.id }));
                if self.pending.len() > 0 {
                    let next = self.pending[0].clone();
                    let id = next.id;
                    effects.push(Effect::Play(next));
                    effects.push(
                        Effect::Notify(Notification { moment: Moment::Begin, utterance: id }),
                    );
                }
                assert(self@ =~= pending_after_finish(old(self)@));
                assert(effects_view(effects@) =~= finish_effects(old(self)@));
            },
        }
        effects
    }

    /// Takes note that the engine has refused to play the head of the queue.
    ///
    /// The head leaves, and no callback hears of it. Where a record waited
    /// behind it, the engine is told to play that record and its begin is
    /// announced. Where the queue is empty nothing changes.
    pub fn reject(&mut self) -> (effects: Vec<Effect>)
        ensures
            final(self)@ == pending_after_finish(old(self)@),
            effects_view(effects@) == reject_effects(old(self)@),
    {
        let mut effects: Vec<Effect> = Vec::new();
        match self.pending.pop_front() {
            None => {
                assert(effects_view(effects@) =~= reject_effects(old(self)@));
            },
            Some(_) => {
                if self.pending.len() > 0 {
                    let next = self.pending[0].clone();
                    let id = next.id;
                    effects.push(Effect::Play(next));
                    effects.push(
                        Effect::Notify(Notification { moment: Moment::Begin, utterance: id }),
                    );
                }
                assert(self@ =~= pending_after_finish(old(self)@));
                assert(effects_view(effects@) =~= reject_effects(old(self)@));
            },
        }
        effects
    }
}

} // verus!
