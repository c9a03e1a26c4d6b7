//! The decisions of the backend of the browser.
//!
//! The speech synthesis of a browser queues utterances itself and reports
//! their moments as events of each utterance. The backend numbers the
//! utterances, remembers which session each belongs to until the browser is
//! done with it, and decides which callback an event is for.

use crate::backend::{Bounds, Parameter};
use crate::error::Error;
use crate::features::Features;
use crate::ids::{BackendId, Backends, IdAllocator, UtteranceId};
use crate::level::Level;
use crate::utterance::{
    effects_view, voice_view, Effect, EffectView, Moment, Notification, Utterance, UtteranceView,
};
use crate::voice::{language_identifier_text, language_tag_parses, Voice, VoiceView};
use vstd::prelude::*;

verus! {

/// The bit pattern of the number 0.
pub const ZERO: u32 = 0x0000_0000;

/// The bit pattern of the number 0.1.
pub const TENTH: u32 = 0x3DCC_CCCD;

/// The bit pattern of the number 1.
pub const ONE: u32 = 0x3F80_0000;

/// The bit pattern of the number 2.
pub const TWO: u32 = 0x4000_0000;

/// The bit pattern of the number 10.
pub const TEN: u32 = 0x4120_0000;

/// What the backend offers: everything.
pub open spec fn spec_features() -> Features {
    Features {
        stop: true,
        rate: true,
        pitch: true,
        volume: true,
        is_speaking: true,
        voice: true,
        get_voice: true,
        utterance_callbacks: true,
    }
}

/// What the backend offers.
#[verifier::when_used_as_spec(spec_features)]
pub fn features() -> (features: Features)
    ensures
        features == spec_features(),
{
    Features {
        stop: true,
        rate: true,
        pitch: true,
        volume: true,
        is_speaking: true,
        voice: true,
        get_voice: true,
        utterance_callbacks: true,
    }
}

/// The bounds of the backend: rates from 0.1 to 10, pitches from 0 to 2,
/// volumes from 0 to 1, each with 1 as the usual value.
pub open spec fn spec_bounds(parameter: Parameter) -> Bounds {
    match parameter {
        Parameter::Rate => Bounds {
            min: Level::spec_from_bits(TENTH),
            normal: Level::spec_from_bits(ONE),
            max: Level::spec_from_bits(TEN),
        },
        Parameter::Pitch => Bounds {
            min: Level::spec_from_bits(ZERO),
            normal: Level::spec_from_bits(ONE),
            max: Level::spec_from_bits(TWO),
        },
        Parameter::Volume => Bounds {
            min: Level::spec_from_bits(ZERO),
            normal: Level::spec_from_bits(ONE),
            max: Level::spec_from_bits(ONE),
        },
    }
}

/// The bounds of the backend.
#[verifier::when_used_as_spec(spec_bounds)]
pub fn bounds(parameter: Parameter) -> (bounds: Bounds)
    ensures
        bounds == spec_bounds(parameter),
{
    match parameter {
        Parameter::Rate => Bounds {
            min: Level::from_bits(TENTH),
            normal: Level::from_bits(ONE),
            max: Level::from_bits(TEN),
        },
        Parameter::Pitch => Bounds {
            min: Level::from_bits(ZERO),
            normal: Level::from_bits(ONE),
            max: Level::from_bits(TWO),
        },
        Parameter::Volume => Bounds {
            min: Level::from_bits(ZERO),
            normal: Level::from_bits(ONE),
            max: Level::from_bits(ONE),
        },
    }
}

/// The voice that the browser describes so: it knows the voice by `uri`,
/// shows it as `name`, and names its language by a Unicode language
/// identifier. The browser tells no gender. Where the language cannot be
/// read, there is no voice.
pub fn describe_voice(uri: String, name: String, language: &str) -> (voice: Option<Voice>)
    ensures
        voice is Some <==> (language_identifier_text(language@) matches Some(text)
            && language_tag_parses(text)),
        voice matches Some(v) ==> v@ == (VoiceView {
            id: uri@,
            name: name@,
            gender: None,
            language: language_identifier_text(language@)->0,
        }),
{
    Voice::with_language_identifier(uri, name, None, language)
}

/// An utterance that the browser holds, with the session it belongs to.
#[derive(Clone, Copy, Debug, PartialEq, Eq, Hash, Structural)]
pub struct Mapping {
    pub session: BackendId,
    pub utterance: UtteranceId,
}

/// The utterances that the browser holds, in the order of their
/// submission.
#[derive(Debug)]
pub struct UtteranceMappings {
    mappings: Vec<Mapping>,
}

impl View for UtteranceMappings {
    type V = Seq<Mapping>;

    closed spec fn view(&self) -> Seq<Mapping> {
        self.mappings@
    }
}

impl UtteranceMappings {
    /// The browser holds nothing.
    pub fn new() -> (mappings: UtteranceMappings)
        ensures
            mappings@ == Seq::<Mapping>::empty(),
    {
        UtteranceMappings { mappings: Vec::new() }
    }

    /// How many utterances the browser holds.
    pub fn len(&self) -> (len: usize)
        ensures
            len == self@.len(),
    {
        self.mappings.len()
    }

    /// Takes note that `utterance` of `session` was handed to the browser.
    pub fn push(&mut self, session: BackendId, utterance: UtteranceId)
        ensures
            final(self)@ == old(self)@.push(Mapping { session, utterance }),
    {
        self.mappings.push(Mapping { session, utterance });
    }

    /// Takes note that the browser is done with `utterance`: every mapping
    /// of it goes, and the others stay in their order.
    pub fn forget_utterance(&mut self, utterance: UtteranceId)
        ensures
            final(self)@ == old(self)@.filter(|m: Mapping| m.utterance != utterance),
    {
        let ghost keep = |m: Mapping| m.utterance != utterance;
        let mut kept: Vec<Mapping> = Vec::new();
        let mut i: usize = 0;
        proof {
            reveal(Seq::filter);
            assert(self.mappings@.subrange(0, 0) =~= Seq::<Mapping>::empty());
        }
        while i < self.mappings.len()
            invariant
                i <= self.mappings@.len(),
                keep == |m: Mapping| m.utterance != utterance,
                kept@ == self.mappings@.subrange(0, i as int).filter(keep),
            decreases self.mappings@.len() - i,
        {
            let mapping = self.mappings[i];
            proof {
                reveal(Seq::filter);
                let more = self.mappings@.subrange(0, i + 1);
                assert(more.drop_last() =~= self.mappings@.subrange(0, i as int));
                assert(more.last() == mapping);
            }
            if mapping.utterance != utterance {
                kept.push(mapping);
            }
            i += 1;
        }
        assert(self.mappings@.subrange(0, i as int) =~= self.mappings@);
        self.mappings = kept;
    }

    /// Takes note that `session` has gone: every mapping of it goes, and the
    /// others stay in their order.
    pub fn forget_session(&mut self, session: BackendId)
        ensures
            final(self)@ == old(self)@.filter(|m: Mapping| m.session != session),
    {
        let ghost keep = |m: Mapping| m.session != session;
        let mut kept: Vec<Mapping> = Vec::new();
        let mut i: usize = 0;
        proof {
            reveal(Seq::filter);
            assert(self.mappings@.subrange(0, 0) =~= Seq::<Mapping>::empty());
        }
        while i < self.mappings.len()
            invariant
                i <= self.mappings@.len(),
                keep == |m: Mapping| m.session != session,
                kept@ == self.mappings@.subrange(0, i as int).filter(keep),
            decreases self.mappings@.len() - i,
        {
            let mapping = self.mappings[i];
            proof {
                reveal(Seq::filter);
                let more = self.mappings@.subrange(0, i + 1);
                assert(more.drop_last() =~= self.mappings@.subrange(0, i as int));
                assert(more.last() == mapping);
            }
            if mapping.session != session {
                kept.push(mapping);
            }
            i += 1;
        }
        assert(self.mappings@.subrange(0, i as int) =~= self.mappings@);
        self.mappings = kept;
    }
}

/// The events that the browser reports of an utterance.
#[derive(Clone, Copy, Debug, PartialEq, Eq, Hash, Structural)]
pub enum UtteranceEvent {
    /// The browser has begun to speak the utterance.
    Start,
    /// The browser has spoken the utterance to its end.
    End,
    /// The browser gave the utterance up because it was cancelled.
    Cancelled,
    /// The browser gave the utterance up for another reason.
    Failed,
}

impl UtteranceEvent {
    /// The moment to announce for the event. An utterance that the browser
    /// gives up for another reason than a cancellation is announced to no
    /// one.
    pub open spec fn spec_moment(self) -> Option<Moment> {
        match self {
            UtteranceEvent::Start => Some(Moment::Begin),
            UtteranceEvent::End => Some(Moment::End),
            UtteranceEvent::Cancelled => Some(Moment::Stop),
            UtteranceEvent::Failed => None,
        }
    }

    /// Whether the browser is done with the utterance once it has reported
    /// the event.
    pub open spec fn spec_is_last(self) -> bool {
        !(self is Start)
    }
}

/// Takes note of an event that the browser reports of `utterance`, and
/// tells what to announce for it.
///
/// The begin, the end and the cancellation of an utterance are announced;
/// another failure is not. With every event but the begin the browser is
/// done with the utterance, and the utterance leaves `mappings`.
pub fn on_event(mappings: &mut UtteranceMappings, event: UtteranceEvent, utterance: UtteranceId)
    -> (announce: Option<Notification>)
    ensures
        announce == (match event.spec_moment() {
            Some(moment) => Some(Notification { moment, utterance }),
            None => None,
        }),
        final(mappings)@ == (if event.spec_is_last() {
            old(mappings)@.filter(|m: Mapping| m.utterance != utterance)
        } else {
            old(mappings)@
        }),
{
    match event {
        UtteranceEvent::Start => Some(Notification { moment: Moment::Begin, utterance }),
        UtteranceEvent::End => {
            mappings.forget_utterance(utterance);
            Some(Notification { moment: Moment::End, utterance })
        },
        UtteranceEvent::Cancelled => {
            mappings.forget_utterance(utterance);
            Some(Notification { moment: Moment::Stop, utterance })
        },
        UtteranceEvent::Failed => {
            mappings.forget_utterance(utterance);
            None
        },
    }
}

/// One session of the backend.
#[derive(Debug)]
pub struct Web {
    pub id: BackendId,
    pub rate: Level,
    pub pitch: Level,
    pub volume: Level,
    pub voice: Option<Voice>,
}

impl Web {
    /// The record of a request to speak `text` that is accepted now as
    /// utterance `number`.
    pub open spec fn record(&self, number: nat, text: Seq<char>) -> UtteranceView {
        UtteranceView {
            id: UtteranceId::Web(number as u64),
            text,
            rate: self.rate,
            pitch: self.pitch,
            volume: self.volume,
            voice: voice_view(self.voice),
        }
    }

    /// What a request to speak hands to the browser: nothing where there is
    /// no window; else the order to fall silent, where the request
    /// interrupts, and then the utterance.
    pub open spec fn speak_effects(&self, number: nat, text: Seq<char>, interrupt: bool, window: bool)
        -> Seq<EffectView> {
        if !window {
            Seq::empty()
        } else if interrupt {
            seq![EffectView::Halt, EffectView::Play(self.record(number, text))]
        } else {
            seq![EffectView::Play(self.record(number, text))]
        }
    }

    /// A new session, with rate, pitch and volume at 1 and with the voice
    /// that the browser chooses. The session takes the next number of `ids`.
    pub fn new(ids: &mut IdAllocator) -> (session: Web)
        requires
            !old(ids).spec_is_exhausted(),
        ensures
            final(ids).spec_issued() == old(ids).spec_issued() + 1,
            session == (Web {
                id: BackendId::Web(old(ids).spec_issued() as u64),
                rate: Level::spec_from_bits(ONE),
                pitch: Level::spec_from_bits(ONE),
                volume: Level::spec_from_bits(ONE),
                voice: None,
            }),
    {
        let number: u64 = ids.issued();
        let _ = ids.next_backend_id(Backends::Web);
        Web {
            id: BackendId::Web(number),
            rate: Level::from_bits(ONE),
            pitch: Level::from_bits(ONE),
            volume: Level::from_bits(ONE),
            voice: None,
        }
    }

    /// Takes a request to speak `text`. `window` tells whether there is a
    /// window to speak in.
    ///
    /// Where there is one, the request is accepted: the utterance takes the
    /// next number of `ids` and the rate, pitch, volume and voice that are
    /// in force, and is entered in `mappings` under this session. It is for
    /// the browser, after the order to fall silent where the request
    /// interrupts, and its identifier is returned.
    ///
    /// Where there is none, the request is refused with `NoneError` and
    /// leaves nothing behind: no number is taken, nothing is entered in
    /// `mappings`, and nothing is for the browser.
    pub fn speak(
        &self,
        ids: &mut IdAllocator,
        mappings: &mut UtteranceMappings,
        text: &str,
        interrupt: bool,
        window: bool,
    ) -> (outcome: (Result<Option<UtteranceId>, Error>, Vec<Effect>))
        requires
            !old(ids).spec_is_exhausted(),
        ensures
            final(ids).spec_issued() == (if window {
                old(ids).spec_issued() + 1
            } else {
                old(ids).spec_issued()
            }),
            final(mappings)@ == (if window {
                old(mappings)@.push(
                    Mapping {
                        session: self.id,
                        utterance: UtteranceId::Web(old(ids).spec_issued() as u64),
                    },
                )
            } else {
                old(mappings)@
            }),
            outcome.0 == (if window {
                Ok::<Option<UtteranceId>, Error>(
                    Some(UtteranceId::Web(old(ids).spec_issued() as u64)),
                )
            } else {
                Err::<Option<UtteranceId>, Error>(Error::NoneError)
            }),
            effects_view(outcome.1@) == self.speak_effects(
                old(ids).spec_issued(),
                text@,
                interrupt,
                window,
            ),
    {
        let mut effects: Vec<Effect> = Vec::new();
        if !window {
            assert(effects_view(effects@) =~= Seq::<EffectView>::empty());
            return (Err(Error::NoneError), effects);
        }
        let number: u64 = ids.issued();
        let _ = ids.next_utterance_id(BackendId::Web(0));
        let id = UtteranceId::Web(number);
        mappings.push(self.id, id);
        let voice = match &self.voice {
            Some(v) => Some(v.clone()),
            None => None,
        };
        let record = Utterance {
            id,
            text: text.to_owned(),
            rate: self.rate,
            pitch: self.pitch,
            volume: self.volume,
            voice,
        };
        if interrupt {
            effects.push(Effect::Halt);
        }
        effects.push(Effect::Play(record));
        assert(effects_view(effects@) =~= self.speak_effects(number as nat, text@, interrupt, true));
        (Ok(Some(id)), effects)
    }

    /// Whether the browser is speaking. `window` tells whether there is a
    /// window, and `speaking` what its speech synthesis says of itself, where
    /// it could be reached. Without a window the question fails with
    /// `NoneError`, and with a speech synthesis that cannot be reached with
    /// `JavaScriptError`.
    pub fn is_speaking(window: bool, speaking: Option<bool>) -> (result: Result<bool, Error>)
        ensures
            result == (if !window {
                Err::<bool, Error>(Error::NoneError)
            } else {
                match speaking {
                    Some(b) => Ok::<bool, Error>(b),
                    None => Err::<bool, Error>(Error::JavaScriptError),
                }
            }),
    {
        if !window {
            Err(Error::NoneError)
        } else {
            match speaking {
                Some(b) => Ok(b),
                None => Err(Error::JavaScriptError),
            }
        }
    }

    /// The voices to choose from: those that the browser lists, where there
    /// is a window to ask; without one the question fails with `NoneError`.
    pub fn voices(window: bool, listed: Vec<Voice>) -> (result: Result<Vec<Voice>, Error>)
        ensures
            result == (if window {
                Ok::<Vec<Voice>, Error>(listed)
            } else {
                Err::<Vec<Voice>, Error>(Error::NoneError)
            }),
    {
        if window {
            Ok(listed)
        } else {
            Err(Error::NoneError)
        }
    }

    /// The voice in force: the one that was chosen, and where none was, the
    /// one that the browser marks as its default, if it marks one. Without
    /// a window there are no voices, and asking for one fails.
    pub fn voice(&self, window: bool, default: Option<Voice>) -> (result: Result<
        Option<Voice>,
        Error,
    >)
        ensures
            result == (if self.voice is Some {
                Ok::<Option<Voice>, Error>(self.voice)
            } else if window {
                Ok::<Option<Voice>, Error>(default)
            } else {
                Err::<Option<Voice>, Error>(Error::NoneError)
            }),
    {
        match &self.voice {
            Some(v) => Ok(Some(v.clone())),
            None => {
                if window {
                    Ok(default)
                } else {
                    Err(Error::NoneError)
                }
            },
        }
    }

    /// Chooses a voice. `found` is the voice that the browser has under the
    /// identifier that was asked for, if it has one. Without a window the
    /// call fails with `NoneError`, without such a voice with
    /// `OperationFailed`; the voice in force then stays.
    pub fn set_voice(&mut self, window: bool, found: Option<Voice>) -> (result: Result<(), Error>)
        ensures
            result == (if !window {
                Err::<(), Error>(Error::NoneError)
            } else if found is None {
                Err::<(), Error>(Error::OperationFailed)
            } else {
                Ok::<(), Error>(())
            }),
            *final(self) == (if result is Ok {
                Web { voice: found, ..*old(self) }
            } else {
                *old(self)
            }),
    {
        if !window {
            Err(Error::NoneError)
        } else {
            match found {
                Some(v) => {
                    self.voice = Some(v);
                    Ok(())
                },
                None => Err(Error::OperationFailed),
            }
        }
    }

    /// Sets `parameter` to `value` for the utterances to come. What the
    /// browser already holds keeps the values it was submitted with.
    pub fn set(&mut self, parameter: Parameter, value: Level)
        ensures
            *final(self) == (match parameter {
                Parameter::Rate => Web { rate: value, ..*old(self) },
                Parameter::Pitch => Web { pitch: value, ..*old(self) },
                Parameter::Volume => Web { volume: value, ..*old(self) },
            }),
    {
        match parameter {
            Parameter::Rate => {
                self.rate = value;
            },
            Parameter::Pitch => {
                self.pitch = value;
            },
            Parameter::Volume => {
                self.volume = value;
            },
        }
    }

    /// The value of `parameter` that is in force.
    pub fn get(&self, parameter: Parameter) -> (value: Level)
        ensures
            value == (match parameter {
                Parameter::Rate => self.rate,
                Parameter::Pitch => self.pitch,
                Parameter::Volume => self.volume,
            }),
    {
        match parameter {
            Parameter::Rate => self.rate,
            Parameter::Pitch => self.pitch,
            Parameter::Volume => self.volume,
        }
    }

    /// Ends the session: every utterance of it that the browser still
    /// holds is forgotten.
    pub fn close(&self, mappings: &mut UtteranceMappings)
        ensures
            final(mappings)@ == old(mappings)@.filter(|m: Mapping| m.session != self.id),
    {
        mappings.forget_session(self.id);
    }
}

} // verus!
