//! What the facade asks of a backend.

use crate::error::Error;
use crate::features::Features;
use crate::ids::{BackendId, IdAllocator, UtteranceId};
use crate::level::Level;
use crate::utterance::{effects_view, Effect, EffectView};
use crate::voice::{Voice, VoiceView};
use vstd::prelude::*;

verus! {

/// The three numeric properties of speech.
#[derive(Clone, Copy, Debug, PartialEq, Eq, Hash, Structural)]
pub enum Parameter {
    Rate,
    Pitch,
    Volume,
}

/// The least, the usual and the greatest value that a backend takes for a
/// parameter.
#[derive(Clone, Copy, Debug, PartialEq, Eq, Structural)]
pub struct Bounds {
    pub min: Level,
    pub normal: Level,
    pub max: Level,
}

impl Features {
    /// Whether values of `parameter` can be read and set.
    pub open spec fn spec_adjusts(self, parameter: Parameter) -> bool {
        match parameter {
            Parameter::Rate => self.rate,
            Parameter::Pitch => self.pitch,
            Parameter::Volume => self.volume,
        }
    }

    /// Whether values of `parameter` can be read and set.
    #[verifier::when_used_as_spec(spec_adjusts)]
    pub fn adjusts(self, parameter: Parameter) -> (offered: bool)
        ensures
            offered == self.spec_adjusts(parameter),
    {
        match parameter {
            Parameter::Rate => self.rate,
            Parameter::Pitch => self.pitch,
            Parameter::Volume => self.volume,
        }
    }
}

/// What a list of voices holds.
pub open spec fn voices_view(voices: Seq<Voice>) -> Seq<VoiceView> {
    voices.map_values(|v: Voice| v@)
}

/// One session of a speech engine, as the facade sees it.
///
/// A backend is a state machine. It decides and records; it does not reach
/// its engine. What the engine is to do, and which callbacks are due, it
/// leaves in its outbox, in order, for the owner of the engine to carry out.
///
/// The `requires` clauses are what the facade guarantees to every backend: a
/// parameter is set only to a value inside the backend's own bounds. The
/// `ensures` clauses are what every backend guarantees to the facade: its
/// identity, its descriptor and its bounds never change, and a backend that
/// offers callbacks has an identity to register them under. What an
/// operation does beyond that is the backend's own affair, and is stated by
/// the relation that belongs to the operation. One thing more is asked of
/// every backend: to stop a session that is not speaking changes nothing.
///
/// Each `spec` function has a body that says the least: no identity, no
/// optional operation, and of an operation that changes the session nothing
/// at all. A backend states what is true of itself in their place.
pub trait Backend: Sized {
    /// The identity of the session, where the backend gives its sessions one.
    open spec fn spec_id(&self) -> Option<BackendId> {
        None
    }

    /// What the backend can do.
    open spec fn spec_features(&self) -> Features {
        Features::none()
    }

    /// The bounds of a parameter that the backend adjusts.
    open spec fn spec_bounds(&self, parameter: Parameter) -> Bounds {
        Bounds {
            min: Level::spec_from_bits(0),
            normal: Level::spec_from_bits(0),
            max: Level::spec_from_bits(0),
        }
    }

    /// The effects that are recorded and not yet taken.
    open spec fn spec_outbox(&self) -> Seq<EffectView> {
        Seq::empty()
    }

    /// What reading `parameter` returns.
    open spec fn spec_get(&self, parameter: Parameter) -> Result<Level, Error> {
        Err(Error::UnsupportedFeature)
    }

    /// What asking whether the session is speaking returns.
    open spec fn spec_is_speaking(&self) -> Result<bool, Error> {
        Err(Error::UnsupportedFeature)
    }

    /// What asking for the voices returns.
    open spec fn spec_voices(&self) -> Result<Seq<VoiceView>, Error> {
        Err(Error::UnsupportedFeature)
    }

    /// What asking for the current voice returns.
    open spec fn spec_voice(&self) -> Result<Option<VoiceView>, Error> {
        Err(Error::UnsupportedFeature)
    }

    /// Whether `speak` may take the session and the counter from `pre` and
    /// `ids_pre` to `post` and `ids_post` and return `result`.
    open spec fn speak_spec(
        pre: Self,
        ids_pre: IdAllocator,
        text: Seq<char>,
        interrupt: bool,
        post: Self,
        ids_post: IdAllocator,
        result: Result<Option<UtteranceId>, Error>,
    ) -> bool {
        true
    }

    /// Whether `stop` may take the session from `pre` to `post` and return
    /// `result`.
    open spec fn stop_spec(pre: Self, post: Self, result: Result<(), Error>) -> bool {
        true
    }

    /// Whether setting `parameter` to `value` may take the session from `pre`
    /// to `post` and return `result`.
    open spec fn set_spec(
        pre: Self,
        parameter: Parameter,
        value: Level,
        post: Self,
        result: Result<(), Error>,
    ) -> bool {
        true
    }

    /// Whether choosing `voice` may take the session from `pre` to `post` and
    /// return `result`.
    open spec fn set_voice_spec(
        pre: Self,
        voice: VoiceView,
        post: Self,
        result: Result<(), Error>,
    ) -> bool {
        true
    }

    /// Whether `close` may take the session from `pre` to `post`.
    open spec fn close_spec(pre: Self, post: Self) -> bool {
        true
    }

    /// Whether the report that the engine has played what it was given to
    /// its end may take the session from `pre` to `post`.
    open spec fn finish_spec(pre: Self, post: Self) -> bool {
        true
    }

    /// Whether the report that the engine has refused what it was given may
    /// take the session from `pre` to `post`.
    open spec fn fail_spec(pre: Self, post: Self) -> bool {
        true
    }

    /// Whether taking the effects may take the session from `pre` to `post`.
    open spec fn take_spec(pre: Self, post: Self) -> bool {
        true
    }

    /// The identity of the session.
    fn id(&self) -> (id: Option<BackendId>)
        ensures
            id == self.spec_id(),
            self.spec_features().utterance_callbacks ==> id is Some,
    ;

    /// What the backend can do.
    fn supported_features(&self) -> (features: Features)
        ensures
            features == self.spec_features(),
    ;

    /// Accepts a request to speak `text`, after stopping what is pending
    /// where `interrupt` is set, and returns the identifier of the utterance
    /// where the backend has one to give.
    fn speak(&mut self, ids: &mut IdAllocator, text: &str, interrupt: bool) -> (result: Result<
        Option<UtteranceId>,
        Error,
    >)
        requires
            !old(ids).spec_is_exhausted(),
        ensures
            Self::speak_spec(*old(self), *old(ids), text@, interrupt, *final(self), *final(ids), result),
            final(self).spec_id() == old(self).spec_id(),
            final(self).spec_features() == old(self).spec_features(),
            forall|p: Parameter| final(self).spec_bounds(p) == old(self).spec_bounds(p),
    ;

    /// Cancels every pending utterance. On a session that tells that it is
    /// not speaking, stopping is no failure and changes nothing that can be
    /// seen: nothing is recorded, the session still tells that it is not
    /// speaking, and every parameter is as it was.
    fn stop(&mut self) -> (result: Result<(), Error>)
        ensures
            Self::stop_spec(*old(self), *final(self), result),
            old(self).spec_is_speaking() == Ok::<bool, Error>(false) ==> {
                &&& result is Ok
                &&& final(self).spec_outbox() == old(self).spec_outbox()
                &&& final(self).spec_is_speaking() == old(self).spec_is_speaking()
                &&& forall|p: Parameter| final(self).spec_get(p) == old(self).spec_get(p)
            },
            final(self).spec_id() == old(self).spec_id(),
            final(self).spec_features() == old(self).spec_features(),
            forall|p: Parameter| final(self).spec_bounds(p) == old(self).spec_bounds(p),
    ;

    /// The least, the usual and the greatest value of `parameter`.
    fn bounds(&self, parameter: Parameter) -> (bounds: Bounds)
        ensures
            bounds == self.spec_bounds(parameter),
    ;

    /// The value of `parameter` that is in force.
    fn get(&self, parameter: Parameter) -> (result: Result<Level, Error>)
        ensures
            result == self.spec_get(parameter),
    ;

    /// Puts `value` in force as the `parameter` of the utterances to come.
    fn set(&mut self, parameter: Parameter, value: Level) -> (result: Result<(), Error>)
        requires
            value.spec_within(
                old(self).spec_bounds(parameter).min,
                old(self).spec_bounds(parameter).max,
            ),
        ensures
            Self::set_spec(*old(self), parameter, value, *final(self), result),
            final(self).spec_id() == old(self).spec_id(),
            final(self).spec_features() == old(self).spec_features(),
            forall|p: Parameter| final(self).spec_bounds(p) == old(self).spec_bounds(p),
    ;

    /// Whether an utterance is pending.
    fn is_speaking(&self) -> (result: Result<bool, Error>)
        ensures
            result == self.spec_is_speaking(),
    ;

    /// The voices that can be chosen.
    fn voices(&self) -> (result: Result<Vec<Voice>, Error>)
        ensures
            result is Ok <==> self.spec_voices() is Ok,
            result matches Ok(v) ==> self.spec_voices() == Ok::<Seq<VoiceView>, Error>(
                voices_view(v@),
            ),
            result matches Err(e) ==> self.spec_voices() == Err::<Seq<VoiceView>, Error>(e),
    ;

    /// The voice in force.
    fn voice(&self) -> (result: Result<Option<Voice>, Error>)
        ensures
            result is Ok <==> self.spec_voice() is Ok,
            result matches Ok(v) ==> self.spec_voice() == Ok::<Option<VoiceView>, Error>(
                crate::utterance::voice_view(v),
            ),
            result matches Err(e) ==> self.spec_voice() == Err::<Option<VoiceView>, Error>(e),
    ;

    /// Puts `voice` in force for the utterances to come.
    fn set_voice(&mut self, voice: &Voice) -> (result: Result<(), Error>)
        ensures
            Self::set_voice_spec(*old(self), voice@, *final(self), result),
            final(self).spec_id() == old(self).spec_id(),
            final(self).spec_features() == old(self).spec_features(),
            forall|p: Parameter| final(self).spec_bounds(p) == old(self).spec_bounds(p),
    ;

    /// Takes note that the engine has played what it was given to its end.
    fn playback_finished(&mut self)
        ensures
            Self::finish_spec(*old(self), *final(self)),
            final(self).spec_id() == old(self).spec_id(),
            final(self).spec_features() == old(self).spec_features(),
            forall|p: Parameter| final(self).spec_bounds(p) == old(self).spec_bounds(p),
    ;

    /// Takes note that the engine has refused what it was given.
    fn playback_failed(&mut self)
        ensures
            Self::fail_spec(*old(self), *final(self)),
            final(self).spec_id() == old(self).spec_id(),
            final(self).spec_features() == old(self).spec_features(),
            forall|p: Parameter| final(self).spec_bounds(p) == old(self).spec_bounds(p),
    ;

    /// Ends the session: what is pending is given up, and the session asks
    /// to be forgotten.
    fn close(&mut self)
        ensures
            Self::close_spec(*old(self), *final(self)),
            final(self).spec_id() == old(self).spec_id(),
            final(self).spec_features() == old(self).spec_features(),
    ;

    /// Hands out the effects that were recorded since they were last taken,
    /// in the order in which they were recorded, and empties the outbox.
    fn take_effects(&mut self) -> (effects: Vec<Effect>)
        ensures
            effects_view(effects@) == old(self).spec_outbox(),
            final(self).spec_outbox() == Seq::<EffectView>::empty(),
            Self::take_spec(*old(self), *final(self)),
            final(self).spec_id() == old(self).spec_id(),
            final(self).spec_features() == old(self).spec_features(),
            forall|p: Parameter| final(self).spec_bounds(p) == old(self).spec_bounds(p),
    ;
}

} // verus!
