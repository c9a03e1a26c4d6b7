//! The backend of AppKit, for the older versions of macOS.
//!
//! Its synthesizer speaks one text at a time and knows nothing of
//! utterances: the backend queues the texts itself, gives no identifiers and
//! reports no moments. Each text waits with the rate and the volume that it
//! was accepted with, and the synthesizer is given them right before the
//! text.

use crate::backend::{Backend, Bounds, Parameter};
use crate::error::Error;
use crate::features::Features;
use crate::ids::{BackendId, IdAllocator, UtteranceId};
use crate::level::Level;
use crate::utterance::{effects_view, Effect, EffectView};
use crate::voice::{Voice, VoiceView};
use std::collections::VecDeque;
use vstd::prelude::*;

verus! {

/// The bit pattern of the number 0.
pub const ZERO: u32 = 0x0000_0000;

/// The bit pattern of the number 1.
pub const ONE: u32 = 0x3F80_0000;

/// The bit pattern of the number 10.
pub const TEN: u32 = 0x4120_0000;

/// The bit pattern of the number 175.
pub const ONE_HUNDRED_SEVENTY_FIVE: u32 = 0x432F_0000;

/// The bit pattern of the number 500.
pub const FIVE_HUNDRED: u32 = 0x43FA_0000;

/// What the backend offers: stopping, rate, volume, and whether it speaks.
pub open spec fn features() -> Features {
    Features {
        stop: true,
        rate: true,
        volume: true,
        is_speaking: true,
        pitch: false,
        voice: false,
        get_voice: false,
        utterance_callbacks: false,
    }
}

/// The bounds of the backend: rates from 10 to 500 words a minute, usually
/// 175, and volumes from 0 to 1, usually 1. It has no pitch.
pub open spec fn bounds(parameter: Parameter) -> Bounds {
    match parameter {
        Parameter::Rate => Bounds {
            min: Level::spec_from_bits(TEN),
            normal: Level::spec_from_bits(ONE_HUNDRED_SEVENTY_FIVE),
            max: Level::spec_from_bits(FIVE_HUNDRED),
        },
        _ => Bounds {
            min: Level::spec_from_bits(ZERO),
            normal: Level::spec_from_bits(ONE),
            max: Level::spec_from_bits(ONE),
        },
    }
}

/// One text that waits to be spoken, with the rate and the volume that were
/// in force when the request to speak it was accepted.
///
/// The two are a snapshot. A later change of the session's rate or volume
/// leaves every text that is already waiting as it is.
#[derive(Debug)]
pub struct Speech {
    pub text: String,
    pub rate: Level,
    pub volume: Level,
}

/// What a [`Speech`] holds.
pub struct SpeechView {
    pub text: Seq<char>,
    pub rate: Level,
    pub volume: Level,
}

impl View for Speech {
    type V = SpeechView;

    open spec fn view(&self) -> SpeechView {
        SpeechView { text: self.text@, rate: self.rate, volume: self.volume }
    }
}

impl Clone for Speech {
    fn clone(&self) -> (copy: Speech)
        ensures
            copy == *self,
    {
        Speech { text: self.text.clone(), rate: self.rate, volume: self.volume }
    }
}

/// What a queue of texts holds.
pub open spec fn speeches_view(speeches: Seq<Speech>) -> Seq<SpeechView> {
    speeches.map_values(|s: Speech| s@)
}

/// The effects that start `speech`: the synthesizer is given the rate and
/// the volume that the text was accepted with, and then the text.
pub open spec fn start_effects(speech: SpeechView) -> Seq<EffectView> {
    seq![
        EffectView::Adjust { parameter: Parameter::Rate, value: speech.rate },
        EffectView::Adjust { parameter: Parameter::Volume, value: speech.volume },
        EffectView::Say { text: speech.text, interrupt: false },
    ]
}

/// The object that the synthesizer reports to, with the texts that wait to
/// be spoken. The text at the head is the one that the synthesizer speaks.
#[derive(Debug)]
pub struct Delegate {
    strings: VecDeque<Speech>,
}

impl View for Delegate {
    type V = Seq<SpeechView>;

    closed spec fn view(&self) -> Seq<SpeechView> {
        speeches_view(self.strings@)
    }
}

impl Delegate {
    /// A delegate with no text waiting.
    pub fn new() -> (delegate: Delegate)
        ensures
            delegate@ == Seq::<SpeechView>::empty(),
    {
        let delegate = Delegate { strings: VecDeque::new() };
        assert(delegate@ =~= Seq::<SpeechView>::empty());
        delegate
    }

    /// How many texts wait, the one being spoken included.
    pub fn count(&self) -> (count: usize)
        ensures
            count == self@.len(),
    {
        self.strings.len()
    }

    /// Appends `speech` to the queue. Where the queue was empty, the
    /// synthesizer is free: the text to start speaking now is handed back.
    /// Where it was not, the text waits and nothing is handed back.
    pub fn enqueue_and_speak(&mut self, speech: Speech) -> (start: Option<Speech>)
        ensures
            final(self)@ == old(self)@.push(speech@),
            start is Some <==> old(self)@.len() == 0,
            start matches Some(s) ==> s@ == speech@,
    {
        let start = if self.strings.len() == 0 {
            Some(speech.clone())
        } else {
            None
        };
        self.strings.push_back(speech);
        assert(self@ =~= old(self)@.push(speech@));
        start
    }

    /// Takes note that the synthesizer has finished the text at the head of
    /// the queue: the text leaves, and the text behind it, if there is one,
    /// is handed back to be spoken next, as it was accepted. Where nothing
    /// waits, nothing changes.
    pub fn speech_synthesizer_did_finish_speaking(&mut self) -> (start: Option<Speech>)
        ensures
            final(self)@ == (if old(self)@.len() == 0 {
                old(self)@
            } else {
                old(self)@.drop_first()
            }),
            start is Some <==> old(self)@.len() > 1,
            start matches Some(s) ==> s@ == old(self)@[1],
    {
        match self.strings.pop_front() {
            None => None,
            Some(_) => {
                assert(self@ =~= old(self)@.drop_first());
                if self.strings.len() > 0 {
                    assert(self.strings@[0]@ == old(self)@[1]);
                    Some(self.strings[0].clone())
                } else {
                    None
                }
            },
        }
    }

    /// Removes every text from the queue.
    pub fn clear_queue(&mut self)
        ensures
            final(self)@ == Seq::<SpeechView>::empty(),
    {
        let mut count: usize = self.strings.len();
        while count > 0
            invariant
                count == self.strings@.len(),
            decreases count,
        {
            let _ = self.strings.pop_front();
            count = self.strings.len();
        }
        assert(self@ =~= Seq::<SpeechView>::empty());
    }
}

/// One session of the backend.
#[derive(Debug)]
pub struct AppKit {
    delegate: Delegate,
    rate: Level,
    volume: Level,
    outbox: Vec<Effect>,
}

/// What a session holds.
pub struct AppKitView {
    /// The texts that wait, the one that is spoken first, each with the rate
    /// and the volume it was accepted with.
    pub strings: Seq<SpeechView>,
    /// The rate of the texts to come.
    pub rate: Level,
    /// The volume of the texts to come.
    pub volume: Level,
    /// The effects that are recorded and not yet taken.
    pub outbox: Seq<EffectView>,
}

impl AppKitView {
    /// The record of a request to speak `text` that is accepted now: it
    /// takes the rate and the volume that are in force.
    pub open spec fn record(self, text: Seq<char>) -> SpeechView {
        SpeechView { text, rate: self.rate, volume: self.volume }
    }

    /// The session after it was stopped: the queue is empty, and where it
    /// was not, the synthesizer is told to fall silent.
    pub open spec fn stop(self) -> AppKitView {
        AppKitView {
            strings: Seq::empty(),
            outbox: if self.strings.len() == 0 {
                self.outbox
            } else {
                self.outbox.push(EffectView::Halt)
            },
            ..self
        }
    }

    /// The session after a request to speak `text` was accepted: the text
    /// joins the queue with the rate and the volume that are in force, and
    /// where nothing waited, it is started.
    pub open spec fn enqueue(self, text: Seq<char>) -> AppKitView {
        AppKitView {
            strings: self.strings.push(self.record(text)),
            outbox: if self.strings.len() == 0 {
                self.outbox + start_effects(self.record(text))
            } else {
                self.outbox
            },
            ..self
        }
    }

    /// The session after a request to speak `text`.
    pub open spec fn speak(self, text: Seq<char>, interrupt: bool) -> AppKitView {
        if interrupt {
            self.stop().enqueue(text)
        } else {
            self.enqueue(text)
        }
    }

    /// The session after the synthesizer has finished a text: the text
    /// leaves, and the text behind it is started, with the rate and the
    /// volume that it was accepted with.
    pub open spec fn finish(self) -> AppKitView {
        if self.strings.len() == 0 {
            self
        } else {
            AppKitView {
                strings: self.strings.drop_first(),
                outbox: if self.strings.len() > 1 {
                    self.outbox + start_effects(self.strings[1])
                } else {
                    self.outbox
                },
                ..self
            }
        }
    }

    /// The session after `parameter` was set to `value`, for the texts to
    /// come. Nothing that waits changes, and nothing is recorded for the
    /// synthesizer: it is given the value with the first text that was
    /// accepted under it.
    pub open spec fn set(self, parameter: Parameter, value: Level) -> AppKitView {
        match parameter {
            Parameter::Rate => AppKitView { rate: value, ..self },
            _ => AppKitView { volume: value, ..self },
        }
    }

    /// The value of `parameter` that is in force for the texts to come.
    pub open spec fn get(self, parameter: Parameter) -> Level {
        match parameter {
            Parameter::Rate => self.rate,
            _ => self.volume,
        }
    }
}

impl View for AppKit {
    type V = AppKitView;

    closed spec fn view(&self) -> AppKitView {
        AppKitView {
            strings: self.delegate@,
            rate: self.rate,
            volume: self.volume,
            outbox: effects_view(self.outbox@),
        }
    }
}

impl AppKit {
    /// A new session: idle, with the usual rate and volume.
    pub fn new() -> (session: AppKit)
        ensures
            session@ == (AppKitView {
                strings: Seq::empty(),
                rate: Level::spec_from_bits(ONE_HUNDRED_SEVENTY_FIVE),
                volume: Level::spec_from_bits(ONE),
                outbox: Seq::empty(),
            }),
    {
        let session = AppKit {
            delegate: Delegate::new(),
            rate: Level::from_bits(ONE_HUNDRED_SEVENTY_FIVE),
            volume: Level::from_bits(ONE),
            outbox: Vec::new(),
        };
        assert(session@.outbox =~= Seq::<EffectView>::empty());
        session
    }

    /// Takes the report of the synthesizer that it has stopped speaking a
    /// text.
    ///
    /// Where it has spoken the text to its end, the text leaves the queue
    /// and the text behind it is started. Where it has not, it was told to
    /// fall silent: the queue was emptied when it was told, and the report
    /// changes nothing.
    pub fn did_finish_speaking(&mut self, finished: bool)
        ensures
            final(self)@ == (if finished {
                old(self)@.finish()
            } else {
                old(self)@
            }),
    {
        if finished {
            self.playback_finished();
        }
    }

    fn record(&mut self, effect: Effect)
        ensures
            final(self)@ == (AppKitView { outbox: old(self)@.outbox.push(effect@), ..old(self)@ }),
    {
        self.outbox.push(effect);
        assert(effects_view(self.outbox@) =~= effects_view(old(self).outbox@).push(effect@));
    }

    fn start(&mut self, speech: Speech)
        ensures
            final(self)@ == (AppKitView {
                outbox: old(self)@.outbox + start_effects(speech@),
                ..old(self)@
            }),
    {
        self.record(Effect::Adjust { parameter: Parameter::Rate, value: speech.rate });
        self.record(Effect::Adjust { parameter: Parameter::Volume, value: speech.volume });
        self.record(Effect::Say { text: speech.text, interrupt: false });
        assert(self@.outbox =~= old(self)@.outbox + start_effects(speech@));
    }

    fn halt(&mut self)
        ensures
            final(self)@ == old(self)@.stop(),
    {
        if self.delegate.count() > 0 {
            self.delegate.clear_queue();
            self.record(Effect::Halt);
        } else {
            assert(self@.strings =~= Seq::<SpeechView>::empty());
        }
    }
}

impl Backend for AppKit {
    open spec fn spec_id(&self) -> Option<BackendId> {
        None
    }

    open spec fn spec_features(&self) -> Features {
        features()
    }

    open spec fn spec_bounds(&self, parameter: Parameter) -> Bounds {
        bounds(parameter)
    }

    open spec fn spec_outbox(&self) -> Seq<EffectView> {
        self@.outbox
    }

    open spec fn spec_get(&self, parameter: Parameter) -> Result<Level, Error> {
        if parameter is Pitch {
            Err(Error::UnsupportedFeature)
        } else {
            Ok(self@.get(parameter))
        }
    }

    open spec fn spec_is_speaking(&self) -> Result<bool, Error> {
        Ok(self@.strings.len() > 0)
    }

    open spec fn spec_voices(&self) -> Result<Seq<VoiceView>, Error> {
        Err(Error::UnsupportedFeature)
    }

    open spec fn spec_voice(&self) -> Result<Option<VoiceView>, Error> {
        Err(Error::UnsupportedFeature)
    }

    /// Every request is accepted, and none gets an identifier. The counter
    /// is not touched.
    open spec fn speak_spec(
        pre: Self,
        ids_pre: IdAllocator,
        text: Seq<char>,
        interrupt: bool,
        post: Self,
        ids_post: IdAllocator,
        result: Result<Option<UtteranceId>, Error>,
    ) -> bool {
        &&& result == Ok::<Option<UtteranceId>, Error>(None)
        &&& ids_post == ids_pre
        &&& post@ == pre@.speak(text, interrupt)
    }

    open spec fn stop_spec(pre: Self, post: Self, result: Result<(), Error>) -> bool {
        result is Ok && post@ == pre@.stop()
    }

    open spec fn set_spec(
        pre: Self,
        parameter: Parameter,
        value: Level,
        post: Self,
        result: Result<(), Error>,
    ) -> bool {
        if parameter is Pitch {
            result == Err::<(), Error>(Error::UnsupportedFeature) && post == pre
        } else {
            result is Ok && post@ == pre@.set(parameter, value)
        }
    }

    open spec fn set_voice_spec(pre: Self, voice: VoiceView, post: Self, result: Result<(), Error>)
        -> bool {
        result == Err::<(), Error>(Error::UnsupportedFeature) && post == pre
    }

    open spec fn close_spec(pre: Self, post: Self) -> bool {
        post@ == pre@.stop()
    }

    /// The text at the head of the queue leaves, and the synthesizer is
    /// given the next one.
    open spec fn finish_spec(pre: Self, post: Self) -> bool {
        post@ == pre@.finish()
    }

    /// A text that the synthesizer has refused leaves like one that it has
    /// spoken.
    open spec fn fail_spec(pre: Self, post: Self) -> bool {
        post@ == pre@.finish()
    }

    open spec fn take_spec(pre: Self, post: Self) -> bool {
        post@ == (AppKitView { outbox: Seq::empty(), ..pre@ })
    }

    fn id(&self) -> (id: Option<BackendId>) {
        None
    }

    fn supported_features(&self) -> (features: Features) {
        Features {
            stop: true,
            rate: true,
            volume: true,
            is_speaking: true,
            pitch: false,
            voice: false,
            get_voice: false,
            utterance_callbacks: false,
        }
    }

    fn speak(&mut self, ids: &mut IdAllocator, text: &str, interrupt: bool) -> (result: Result<
        Option<UtteranceId>,
        Error,
    >) {
        if interrupt {
            self.halt();
        }
        let speech = Speech { text: text.to_owned(), rate: self.rate, volume: self.volume };
        match self.delegate.enqueue_and_speak(speech) {
            Some(speech) => {
                self.start(speech);
            },
            None => {},
        }
        Ok(None)
    }

    fn stop(&mut self) -> (result: Result<(), Error>) {
        self.halt();
        Ok(())
    }

    fn bounds(&self, parameter: Parameter) -> (bounds: Bounds) {
        match parameter {
            Parameter::Rate => Bounds {
                min: Level::from_bits(TEN),
                normal: Level::from_bits(ONE_HUNDRED_SEVENTY_FIVE),
                max: Level::from_bits(FIVE_HUNDRED),
            },
            _ => Bounds {
                min: Level::from_bits(ZERO),
                normal: Level::from_bits(ONE),
                max: Level::from_bits(ONE),
            },
        }
    }

    fn get(&self, parameter: Parameter) -> (result: Result<Level, Error>) {
        match parameter {
            Parameter::Rate => Ok(self.rate),
            Parameter::Volume => Ok(self.volume),
            Parameter::Pitch => Err(Error::UnsupportedFeature),
        }
    }

    fn set(&mut self, parameter: Parameter, value: Level) -> (result: Result<(), Error>) {
        match parameter {
            Parameter::Rate => {
                self.rate = value;
            },
            Parameter::Volume => {
                self.volume = value;
            },
            Parameter::Pitch => {
                return Err(Error::UnsupportedFeature);
            },
        }
        Ok(())
    }

    fn is_speaking(&self) -> (result: Result<bool, Error>) {
        Ok(self.delegate.count() > 0)
    }

    fn voices(&self) -> (result: Result<Vec<Voice>, Error>) {
        Err(Error::UnsupportedFeature)
    }

    fn voice(&self) -> (result: Result<Option<Voice>, Error>) {
        Err(Error::UnsupportedFeature)
    }

    fn set_voice(&mut self, voice: &Voice) -> (result: Result<(), Error>) {
        Err(Error::UnsupportedFeature)
    }

    fn playback_finished(&mut self) {
        match self.delegate.speech_synthesizer_did_finish_speaking() {
            Some(speech) => {
                self.start(speech);
            },
            None => {},
        }
    }

    fn playback_failed(&mut self) {
        self.playback_finished();
    }

    fn close(&mut self) {
        self.halt();
    }

    fn take_effects(&mut self) -> (effects: Vec<Effect>) {
        let mut effects: Vec<Effect> = Vec::new();
        core::mem::swap(&mut self.outbox, &mut effects);
        assert(self@.outbox =~= Seq::<EffectView>::empty());
        effects
    }
}

} // verus!
