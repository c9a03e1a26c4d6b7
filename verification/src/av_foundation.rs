//! The decisions of the backend of AVFoundation.
//!
//! The synthesizer queues utterances itself and reports their moments to a
//! delegate, naming each utterance by its own record of it. The backend
//! decides what an utterance is made of, when the synthesizer is to fall
//! silent first, and which callback a report is for.

use crate::backend::{Bounds, Parameter};
use crate::features::Features;
use crate::ids::{BackendId, Backends, IdAllocator, UtteranceId};
use crate::level::Level;
use crate::utterance::{
    effects_view, voice_view, Effect, EffectView, Moment, Notification, Utterance, UtteranceView,
};
use crate::voice::{language_tag_parses, Gender, Voice, VoiceView};
use vstd::prelude::*;

verus! {

/// The bit pattern of the number 0.
pub const ZERO: u32 = 0x0000_0000;

/// The bit pattern of the number 0.1.
pub const TENTH: u32 = 0x3DCC_CCCD;

/// The bit pattern of the number 0.5.
pub const HALF: u32 = 0x3F00_0000;

/// The bit pattern of the number 1.
pub const ONE: u32 = 0x3F80_0000;

/// The bit pattern of the number 2.
pub const TWO: u32 = 0x4000_0000;

/// What the backend offers: everything but telling the voice in force.
pub open spec fn spec_features() -> Features {
    Features {
        stop: true,
        rate: true,
        pitch: true,
        volume: true,
        is_speaking: true,
        voice: true,
        get_voice: false,
        utterance_callbacks: true,
    }
}

/// What the backend offers.
#[verifier::when_used_as_spec(spec_features)]
pub fn features() -> (features: Features)
    ensures
        features == spec_features(),
{
    Features {
        stop: true,
        rate: true,
        pitch: true,
        volume: true,
        is_speaking: true,
        voice: true,
        get_voice: false,
        utterance_callbacks: true,
    }
}

/// The bounds of the backend: rates from 0.1 to 2, usually 0.5; pitches
/// from 0.5 to 2, usually 1; volumes from 0 to 1, usually 1.
pub open spec fn spec_bounds(parameter: Parameter) -> Bounds {
    match parameter {
        Parameter::Rate => Bounds {
            min: Level::spec_from_bits(TENTH),
            normal: Level::spec_from_bits(HALF),
            max: Level::spec_from_bits(TWO),
        },
        Parameter::Pitch => Bounds {
            min: Level::spec_from_bits(HALF),
            normal: Level::spec_from_bits(ONE),
            max: Level::spec_from_bits(TWO),
        },
        Parameter::Volume => Bounds {
            min: Level::spec_from_bits(ZERO),
            normal: Level::spec_from_bits(ONE),
            max: Level::spec_from_bits(ONE),
        },
    }
}

/// The bounds of the backend.
#[verifier::when_used_as_spec(spec_bounds)]
pub fn bounds(parameter: Parameter) -> (bounds: Bounds)
    ensures
        bounds == spec_bounds(parameter),
{
    match parameter {
        Parameter::Rate => Bounds {
            min: Level::from_bits(TENTH),
            normal: Level::from_bits(HALF),
            max: Level::from_bits(TWO),
        },
        Parameter::Pitch => Bounds {
            min: Level::from_bits(HALF),
            normal: Level::from_bits(ONE),
            max: Level::from_bits(TWO),
        },
        Parameter::Volume => Bounds {
            min: Level::from_bits(ZERO),
            normal: Level::from_bits(ONE),
            max: Level::from_bits(ONE),
        },
    }
}

/// The gender that the engine's code for it stands for: 1 is male, 2 is
/// female, and every other code leaves the gender untold.
#[verifier::when_used_as_spec(spec_gender)]
pub fn gender(code: i64) -> (gender: Option<Gender>)
    ensures
        gender == spec_gender(code),
{
    if code == 1 {
        Some(Gender::Male)
    } else if code == 2 {
        Some(Gender::Female)
    } else {
        None
    }
}

/// The gender that the engine's code for it stands for.
pub open spec fn spec_gender(code: i64) -> Option<Gender> {
    if code == 1 {
        Some(Gender::Male)
    } else if code == 2 {
        Some(Gender::Female)
    } else {
        None
    }
}

/// The voice that the engine describes so: it knows the voice by `id`, shows
/// it as `name`, gives its gender as `gender_code` and its language as a
/// language tag. Where the language is no well-formed tag, there is no
/// voice.
pub fn describe_voice(id: String, name: String, gender_code: i64, language: String) -> (voice:
    Option<Voice>)
    ensures
        voice is Some <==> language_tag_parses(language@),
        voice matches Some(v) ==> v@ == (VoiceView {
            id: id@,
            name: name@,
            gender: spec_gender(gender_code),
            language: language@,
        }),
{
    Voice::new(id, name, gender(gender_code), language)
}

/// The reports that the synthesizer makes of an utterance to its delegate.
#[derive(Clone, Copy, Debug, PartialEq, Eq, Hash, Structural)]
pub enum Report {
    DidStart,
    DidFinish,
    DidCancel,
}

/// The session and the notification that a report of the delegate of
/// session `number` is for, where the utterance is the engine's record at
/// `address`.
pub fn notification(report: Report, number: u64, address: usize) -> (announce: (
    BackendId,
    Notification,
))
    ensures
        announce == (
            BackendId::AvFoundation(number),
            Notification {
                moment: match report {
                    Report::DidStart => Moment::Begin,
                    Report::DidFinish => Moment::End,
                    Report::DidCancel => Moment::Stop,
                },
                utterance: UtteranceId::AvFoundation(address),
            },
        ),
{
    let moment = match report {
        Report::DidStart => Moment::Begin,
        Report::DidFinish => Moment::End,
        Report::DidCancel => Moment::Stop,
    };
    (
        BackendId::AvFoundation(number),
        Notification { moment, utterance: UtteranceId::AvFoundation(address) },
    )
}

/// One session of the backend.
#[derive(Debug)]
pub struct AvFoundation {
    pub id: BackendId,
    pub rate: Level,
    pub volume: Level,
    pub pitch: Level,
    pub voice: Option<Voice>,
}

impl AvFoundation {
    /// The record of a request to speak `text` whose utterance the engine
    /// keeps at `address`.
    pub open spec fn record(&self, address: usize, text: Seq<char>) -> UtteranceView {
        UtteranceView {
            id: UtteranceId::AvFoundation(address),
            text,
            rate: self.rate,
            pitch: self.pitch,
            volume: self.volume,
            voice: voice_view(self.voice),
        }
    }

    /// A new session, with the usual rate, pitch and volume and with the
    /// voice that the engine chooses. The session takes the next number of
    /// `ids`.
    pub fn new(ids: &mut IdAllocator) -> (session: AvFoundation)
        requires
            !old(ids).spec_is_exhausted(),
        ensures
            final(ids).spec_issued() == old(ids).spec_issued() + 1,
            session == (AvFoundation {
                id: BackendId::AvFoundation(old(ids).spec_issued() as u64),
                rate: Level::spec_from_bits(HALF),
                volume: Level::spec_from_bits(ONE),
                pitch: Level::spec_from_bits(ONE),
                voice: None,
            }),
    {
        let number: u64 = ids.issued();
        let _ = ids.next_backend_id(Backends::AvFoundation);
        AvFoundation {
            id: BackendId::AvFoundation(number),
            rate: Level::from_bits(HALF),
            volume: Level::from_bits(ONE),
            pitch: Level::from_bits(ONE),
            voice: None,
        }
    }

    /// Accepts a request to speak `text`.
    ///
    /// The engine keeps its record of the utterance at `address`, and the
    /// address is the identifier of the utterance. `speaking` tells whether
    /// the synthesizer is speaking now. The synthesizer is told to fall
    /// silent first where the request interrupts and there is something to
    /// interrupt; then it is given the utterance, with the rate, pitch,
    /// volume and voice that are in force.
    pub fn speak(&self, address: usize, text: &str, interrupt: bool, speaking: bool) -> (outcome: (
        UtteranceId,
        Vec<Effect>,
    ))
        ensures
            outcome.0 == UtteranceId::AvFoundation(address),
            effects_view(outcome.1@) == (if interrupt && speaking {
                seq![EffectView::Halt, EffectView::Play(self.record(address, text@))]
            } else {
                seq![EffectView::Play(self.record(address, text@))]
            }),
    {
        let id = UtteranceId::AvFoundation(address);
        let voice = match &self.voice {
            Some(v) => Some(v.clone()),
            None => None,
        };
        let record = Utterance {
            id,
            text: text.to_owned(),
            rate: self.rate,
            pitch: self.pitch,
            volume: self.volume,
            voice,
        };
        let mut effects: Vec<Effect> = Vec::new();
        if interrupt && speaking {
            effects.push(Effect::Halt);
        }
        effects.push(Effect::Play(record));
        assert(effects_view(effects@) =~= (if interrupt && speaking {
            seq![EffectView::Halt, EffectView::Play(self.record(address, text@))]
        } else {
            seq![EffectView::Play(self.record(address, text@))]
        }));
        (id, effects)
    }

    /// Sets `parameter` to `value` for the utterances to come.
    pub fn set(&mut self, parameter: Parameter, value: Level)
        ensures
            *final(self) == (match parameter {
                Parameter::Rate => AvFoundation { rate: value, ..*old(self) },
                Parameter::Pitch => AvFoundation { pitch: value, ..*old(self) },
                Parameter::Volume => AvFoundation { volume: value, ..*old(self) },
            }),
    {
        match parameter {
            Parameter::Rate => {
                self.rate = value;
            },
            Parameter::Pitch => {
                self.pitch = value;
            },
            Parameter::Volume => {
                self.volume = value;
            },
        }
    }

    /// The value of `parameter` that is in force.
    pub fn get(&self, parameter: Parameter) -> (value: Level)
        ensures
            value == (match parameter {
                Parameter::Rate => self.rate,
                Parameter::Pitch => self.pitch,
                Parameter::Volume => self.volume,
            }),
    {
        match parameter {
            Parameter::Rate => self.rate,
            Parameter::Pitch => self.pitch,
            Parameter::Volume => self.volume,
        }
    }

    /// Chooses `voice` for the utterances to come.
    pub fn set_voice(&mut self, voice: &Voice)
        ensures
            *final(self) == (AvFoundation { voice: Some(*voice), ..*old(self) }),
    {
        self.voice = Some(voice.clone());
    }
}

} // verus!
