//! The backend of Tolk, which speaks through the screen reader that runs
//! on the machine.

use crate::backend::{Backend, Bounds, Parameter};
use crate::error::Error;
use crate::features::Features;
use crate::ids::{BackendId, IdAllocator, UtteranceId};
use crate::level::Level;
use crate::utterance::{effects_view, Effect, EffectView};
use crate::voice::{Voice, VoiceView};
use vstd::prelude::*;

verus! {

/// What the backend offers: stopping, and nothing else.
pub open spec fn features() -> Features {
    Features {
        stop: true,
        rate: false,
        pitch: false,
        volume: false,
        is_speaking: false,
        voice: false,
        get_voice: false,
        utterance_callbacks: false,
    }
}

/// One session of the backend.
///
/// The screen reader queues and interrupts by itself, so the session holds
/// nothing but what it has recorded for the screen reader.
#[derive(Debug)]
pub struct Tolk {
    outbox: Vec<Effect>,
}

impl View for Tolk {
    type V = Seq<EffectView>;

    closed spec fn view(&self) -> Seq<EffectView> {
        effects_view(self.outbox@)
    }
}

impl Tolk {
    /// A session, where a screen reader was detected, and nothing where
    /// none was.
    pub fn new(screen_reader_detected: bool) -> (session: Option<Tolk>)
        ensures
            session is Some <==> screen_reader_detected,
            session matches Some(s) ==> s@ == Seq::<EffectView>::empty(),
    {
        if screen_reader_detected {
            let session = Tolk { outbox: Vec::new() };
            assert(session@ =~= Seq::<EffectView>::empty());
            Some(session)
        } else {
            None
        }
    }

    fn record(&mut self, effect: Effect)
        ensures
            final(self)@ == old(self)@.push(effect@),
    {
        self.outbox.push(effect);
        assert(effects_view(self.outbox@) =~= effects_view(old(self).outbox@).push(effect@));
    }
}

impl Backend for Tolk {
    open spec fn spec_id(&self) -> Option<BackendId> {
        None
    }

    open spec fn spec_features(&self) -> Features {
        features()
    }

    open spec fn spec_bounds(&self, parameter: Parameter) -> Bounds {
        Bounds {
            min: Level::spec_from_bits(0),
            normal: Level::spec_from_bits(0),
            max: Level::spec_from_bits(0),
        }
    }

    open spec fn spec_outbox(&self) -> Seq<EffectView> {
        self@
    }

    open spec fn spec_get(&self, parameter: Parameter) -> Result<Level, Error> {
        Err(Error::UnsupportedFeature)
    }

    open spec fn spec_is_speaking(&self) -> Result<bool, Error> {
        Err(Error::UnsupportedFeature)
    }

    open spec fn spec_voices(&self) -> Result<Seq<VoiceView>, Error> {
        Err(Error::UnsupportedFeature)
    }

    open spec fn spec_voice(&self) -> Result<Option<VoiceView>, Error> {
        Err(Error::UnsupportedFeature)
    }

    /// Every request is accepted, and none gets an identifier. The text
    /// goes to the screen reader together with the wish to interrupt.
    open spec fn speak_spec(
        pre: Self,
        ids_pre: IdAllocator,
        text: Seq<char>,
        interrupt: bool,
        post: Self,
        ids_post: IdAllocator,
        result: Result<Option<UtteranceId>, Error>,
    ) -> bool {
        &&& result == Ok::<Option<UtteranceId>, Error>(None)
        &&& ids_post == ids_pre
        &&& post@ == pre@.push(EffectView::Say { text, interrupt })
    }

    open spec fn stop_spec(pre: Self, post: Self, result: Result<(), Error>) -> bool {
        result is Ok && post@ == pre@.push(EffectView::Halt)
    }

    open spec fn set_spec(
        pre: Self,
        parameter: Parameter,
        value: Level,
        post: Self,
        result: Result<(), Error>,
    ) -> bool {
        result == Err::<(), Error>(Error::UnsupportedFeature) && post == pre
    }

    open spec fn set_voice_spec(pre: Self, voice: VoiceView, post: Self, result: Result<(), Error>)
        -> bool {
        result == Err::<(), Error>(Error::UnsupportedFeature) && post == pre
    }

    open spec fn close_spec(pre: Self, post: Self) -> bool {
        post == pre
    }

    open spec fn finish_spec(pre: Self, post: Self) -> bool {
        post == pre
    }

    open spec fn fail_spec(pre: Self, post: Self) -> bool {
        post == pre
    }

    open spec fn take_spec(pre: Self, post: Self) -> bool {
        post@ == Seq::<EffectView>::empty()
    }

    fn id(&self) -> (id: Option<BackendId>) {
        None
    }

    fn supported_features(&self) -> (features: Features) {
        Features {
            stop: true,
            rate: false,
            pitch: false,
            volume: false,
            is_speaking: false,
            voice: false,
            get_voice: false,
            utterance_callbacks: false,
        }
    }

    fn speak(&mut self, ids: &mut IdAllocator, text: &str, interrupt: bool) -> (result: Result<
        Option<UtteranceId>,
        Error,
    >) {
        self.record(Effect::Say { text: text.to_owned(), interrupt });
        Ok(None)
    }

    fn stop(&mut self) -> (result: Result<(), Error>) {
        self.record(Effect::Halt);
        Ok(())
    }

    fn bounds(&self, parameter: Parameter) -> (bounds: Bounds) {
        Bounds { min: Level::from_bits(0), normal: Level::from_bits(0), max: Level::from_bits(0) }
    }

    fn get(&self, parameter: Parameter) -> (result: Result<Level, Error>) {
        Err(Error::UnsupportedFeature)
    }

    fn set(&mut self, parameter: Parameter, value: Level) -> (result: Result<(), Error>) {
        Err(Error::UnsupportedFeature)
    }

    fn is_speaking(&self) -> (result: Result<bool, Error>) {
        Err(Error::UnsupportedFeature)
    }

    fn voices(&self) -> (result: Result<Vec<Voice>, Error>) {
        Err(Error::UnsupportedFeature)
    }

    fn voice(&self) -> (result: Result<Option<Voice>, Error>) {
        Err(Error::UnsupportedFeature)
    }

    fn set_voice(&mut self, voice: &Voice) -> (result: Result<(), Error>) {
        Err(Error::UnsupportedFeature)
    }

    fn playback_finished(&mut self) {
    }

    fn playback_failed(&mut self) {
    }

    fn close(&mut self) {
    }

    fn take_effects(&mut self) -> (effects: Vec<Effect>) {
        let mut effects: Vec<Effect> = Vec::new();
        core::mem::swap(&mut self.outbox, &mut effects);
        assert(self@ =~= Seq::<EffectView>::empty());
        effects
    }
}

} // verus!
