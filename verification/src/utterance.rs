//! Pending utterances, and what the library asks of the layer that owns the
//! engine.

use crate::backend::Parameter;
use crate::ids::{BackendId, UtteranceId};
use crate::level::Level;
use crate::voice::{Voice, VoiceView};
use vstd::prelude::*;

verus! {

/// One accepted request to speak: the text, and the rate, pitch, volume and
/// voice that were in force when the request was accepted.
///
/// The four are a snapshot. A later change of the session's rate, pitch,
/// volume or voice leaves every record that is already queued as it is.
#[derive(Debug)]
pub struct Utterance {
    pub id: UtteranceId,
    pub text: String,
    pub rate: Level,
    pub pitch: Level,
    pub volume: Level,
    pub voice: Option<Voice>,
}

/// What an [`Utterance`] holds.
pub struct UtteranceView {
    pub id: UtteranceId,
    pub text: Seq<char>,
    pub rate: Level,
    pub pitch: Level,
    pub volume: Level,
    pub voice: Option<VoiceView>,
}

/// What an optional voice holds.
pub open spec fn voice_view(voice: Option<Voice>) -> Option<VoiceView> {
    match voice {
        Some(v) => Some(v@),
        None => None,
    }
}

impl View for Utterance {
    type V = UtteranceView;

    open spec fn view(&self) -> UtteranceView {
        UtteranceView {
            id: self.id,
            text: self.text@,
            rate: self.rate,
            pitch: self.pitch,
            volume: self.volume,
            voice: voice_view(self.voice),
        }
    }
}

impl Clone for Utterance {
    fn clone(&self) -> (copy: Utterance)
        ensures
            copy == *self,
    {
        let voice = match &self.voice {
            Some(v) => Some(v.clone()),
            None => None,
        };
        Utterance {
            id: self.id,
            text: self.text.clone(),
            rate: self.rate,
            pitch: self.pitch,
            volume: self.volume,
            voice,
        }
    }
}

/// The three moments in the life of an utterance that a caller can ask to
/// be told of.
#[derive(Clone, Copy, Debug, PartialEq, Eq, Hash, Structural)]
pub enum Moment {
    /// The engine has begun to speak the utterance.
    Begin,
    /// The engine has spoken the utterance to its end.
    End,
    /// The utterance was cancelled, spoken in part or not at all.
    Stop,
}

/// That an utterance has reached a moment: what a callback is called with.
#[derive(Clone, Copy, Debug, PartialEq, Eq, Hash, Structural)]
pub struct Notification {
    pub moment: Moment,
    pub utterance: UtteranceId,
}

/// One thing to be done by the layer that owns the engine. Effects are
/// carried out in the order in which the library recorded them.
#[derive(Debug)]
pub enum Effect {
    /// Have the engine speak this record, with the record's own rate, pitch,
    /// volume and voice.
    Play(Utterance),
    /// Hand this text to an engine that keeps no record of its utterances.
    /// With `interrupt` the engine drops what it is speaking first.
    Say { text: String, interrupt: bool },
    /// Have the engine fall silent.
    Halt,
    /// Have the engine take this value for the parameter.
    Adjust { parameter: Parameter, value: Level },
    /// Call the callback that is registered for the moment, if there is one.
    Notify(Notification),
    /// Strike the session out of the registry of callbacks and out of every
    /// index that leads from the engine's handles to it.
    Forget(BackendId),
}

/// What an [`Effect`] holds.
pub enum EffectView {
    Play(UtteranceView),
    Say { text: Seq<char>, interrupt: bool },
    Halt,
    Adjust { parameter: Parameter, value: Level },
    Notify(Notification),
    Forget(BackendId),
}

impl View for Effect {
    type V = EffectView;

    open spec fn view(&self) -> EffectView {
        match self {
            Effect::Play(u) => EffectView::Play(u@),
            Effect::Say { text, interrupt } => EffectView::Say {
                text: text@,
                interrupt: *interrupt,
            },
            Effect::Halt => EffectView::Halt,
            Effect::Adjust { parameter, value } => EffectView::Adjust {
                parameter: *parameter,
                value: *value,
            },
            Effect::Notify(n) => EffectView::Notify(*n),
            Effect::Forget(id) => EffectView::Forget(*id),
        }
    }
}

impl Effect {
    /// Whether the effect announces a moment of `utterance`.
    pub open spec fn spec_announces(self, utterance: UtteranceId) -> bool {
        self@ matches EffectView::Notify(n) && n.utterance == utterance
    }

    /// Whether the effect announces a moment of `utterance`.
    ///
    /// When the engine refuses an utterance, what was recorded to announce
    /// the utterance is not carried out: nobody is told of the begin of an
    /// utterance that was never played.
    pub fn announces(&self, utterance: UtteranceId) -> (announces: bool)
        ensures
            announces == self.spec_announces(utterance),
    {
        match self {
            Effect::Notify(n) => n.utterance == utterance,
            _ => false,
        }
    }
}

/// Whether `effect` is kept when `refused` was refused by the engine:
/// everything is, but what announces a moment of `refused`.
pub open spec fn is_kept(effect: EffectView, refused: UtteranceId) -> bool {
    !(effect matches EffectView::Notify(n) && n.utterance == refused)
}

/// What is left to carry out of `effects` once the engine has refused the
/// utterance `refused`: everything but what announces a moment of it, in the
/// order in which it was recorded. Nobody is told of the begin of an
/// utterance that was never played.
pub fn without_announcements_of(effects: Vec<Effect>, refused: UtteranceId) -> (kept: Vec<Effect>)
    ensures
        effects_view(kept@) == effects_view(effects@).filter(
            |e: EffectView| !(e matches EffectView::Notify(n) && n.utterance == refused),
        ),
{
    let ghost all = effects@;
    let ghost keep = |e: EffectView| !(e matches EffectView::Notify(n) && n.utterance == refused);
    let mut rest = effects;
    let mut kept: Vec<Effect> = Vec::new();
    proof {
        reveal(Seq::filter);
        assert(all.subrange(0, 0) =~= Seq::<Effect>::empty());
        assert(rest@ =~= all.subrange(0, all.len() as int));
    }
    while rest.len() > 0
        invariant
            rest@.len() <= all.len(),
            rest@ == all.subrange(all.len() - rest@.len(), all.len() as int),
            keep == |e: EffectView| !(e matches EffectView::Notify(n) && n.utterance == refused),
            effects_view(kept@) == effects_view(all.subrange(0, all.len() - rest@.len())).filter(
                keep,
            ),
        decreases rest@.len(),
    {
        let ghost done = all.len() - rest@.len();
        let ghost before = effects_view(all.subrange(0, done));
        let ghost kept_before = effects_view(kept@);
        let effect = rest.remove(0);
        proof {
            reveal(Seq::filter);
            assert(effect == all[done]);
            let more = effects_view(all.subrange(0, done + 1));
            assert(more.drop_last() =~= before);
            assert(more.last() == effect@);
            assert(rest@ =~= all.subrange(done + 1, all.len() as int));
        }
        if !effect.announces(refused) {
            kept.push(effect);
            assert(effects_view(kept@) =~= kept_before.push(effect@));
        }
    }
    assert(all.subrange(0, all.len() as int) =~= all);
    kept
}

/// What a sequence of records holds.
pub open spec fn utterances_view(records: Seq<Utterance>) -> Seq<UtteranceView> {
    records.map_values(|u: Utterance| u@)
}

/// What a sequence of effects holds.
pub open spec fn effects_view(effects: Seq<Effect>) -> Seq<EffectView> {
    effects.map_values(|e: Effect| e@)
}

/// The effect that announces `moment` of `utterance`.
pub open spec fn notify(moment: Moment, utterance: UtteranceId) -> EffectView {
    EffectView::Notify(Notification { moment, utterance })
}

/// The notifications among `effects`, in their order.
pub open spec fn notifications(effects: Seq<EffectView>) -> Seq<Notification>
    decreases effects.len(),
{
    if effects.len() == 0 {
        Seq::empty()
    } else {
        let rest = notifications(effects.drop_last());
        match effects.last() {
            EffectView::Notify(n) => rest.push(n),
            _ => rest,
        }
    }
}

/// The notifications of two runs of effects, one after the other, are those
/// of the first followed by those of the second.
pub proof fn lemma_notifications_concat(a: Seq<EffectView>, b: Seq<EffectView>)
    ensures
        notifications(a + b) == notifications(a) + notifications(b),
    decreases b.len(),
{
    if b.len() == 0 {
        assert(a + b =~= a);
        assert(notifications(a) + notifications(b) =~= notifications(a));
    } else {
        assert((a + b).drop_last() =~= a + b.drop_last());
        assert((a + b).last() == b.last());
        lemma_notifications_concat(a, b.drop_last());
        match b.last() {
            EffectView::Notify(n) => {
                assert(notifications(a + b) == notifications(a + b.drop_last()).push(n));
                assert((notifications(a) + notifications(b.drop_last())).push(n) =~= notifications(
                    a,
                ) + notifications(b.drop_last()).push(n));
            },
            _ => {},
        }
    }
}

} // verus!
