//! The facade: one object for one session, whatever the backend.

use crate::backend::{voices_view, Backend, Parameter};
use crate::callbacks::CallbackRegistry;
use crate::error::Error;
use crate::features::Features;
use crate::ids::{BackendId, Backends, IdAllocator, UtteranceId};
use crate::index::HandleIndex;
use crate::level::Level;
use crate::platform::{default_backends, spec_default_backends, Platform};
use crate::utterance::{effects_view, voice_view, Effect, EffectView, Moment};
use crate::voice::{Voice, VoiceView};
use vstd::prelude::*;
use vstd::string::StringSliceAdditionalSpecFns;

verus! {

/// The facade of one session.
///
/// Every optional operation looks at the backend's descriptor first and
/// fails with `UnsupportedFeature` where the operation is not offered; every
/// setter of a parameter then holds the value against the backend's bounds
/// and fails with `OutOfRange` where it lies outside. In both cases the
/// backend is left exactly as it was: nothing was asked of it, and nothing
/// is recorded for its engine.
#[derive(Debug)]
pub struct Tts<B: Backend> {
    pub backend: B,
}

impl<B: Backend> Tts<B> {
    /// Binds a facade to `backend` and enters the session in `callbacks`,
    /// without a callback, where the backend gives its sessions an identity.
    /// Where the backend could not be made, the error is handed on and the
    /// registry is left as it was.
    pub fn new<C>(backend: Result<B, Error>, callbacks: &mut CallbackRegistry<C>) -> (tts: Result<
        Tts<B>,
        Error,
    >)
        ensures
            match backend {
                Ok(b) => tts == Ok::<Tts<B>, Error>(Tts { backend: b }) && final(callbacks)@ == (
                match b.spec_id() {
                    Some(id) => old(callbacks)@.insert(id, crate::callbacks::Callbacks::<C>::empty()),
                    None => old(callbacks)@,
                }),
                Err(e) => tts == Err::<Tts<B>, Error>(e) && final(callbacks)@ == old(callbacks)@,
            },
    {
        match backend {
            Ok(backend) => {
                match backend.id() {
                    Some(id) => {
                        callbacks.register(id);
                    },
                    None => {},
                }
                Ok(Tts { backend })
            },
            Err(e) => Err(e),
        }
    }

    /// The backends to try, first to last, for the facade of a caller who
    /// names none: the first that can be made is the one to bind.
    ///
    /// `tolk` tells whether the library was built with Tolk; it matters on
    /// Windows only. `description` is what the system says of its version; it
    /// matters on a Mac only.
    pub fn default(platform: Platform, tolk: bool, description: &str) -> (backends: Vec<Backends>)
        ensures
            backends@ == spec_default_backends(platform, tolk, description.spec_bytes()),
    {
        default_backends(platform, tolk, description)
    }

    /// Whether a screen reader can speak for the facade: on Windows, where
    /// the library was built with Tolk and Tolk has detected one; nowhere
    /// else.
    pub fn screen_reader_available(platform: Platform, tolk: bool, detected: bool) -> (available:
        bool)
        ensures
            available == (platform is Windows && tolk && detected),
    {
        match platform {
            Platform::Windows => tolk && detected,
            _ => false,
        }
    }

    /// What the backend can do.
    pub fn supported_features(&self) -> (features: Features)
        ensures
            features == self.backend.spec_features(),
    {
        self.backend.supported_features()
    }

    /// Speaks `text`, after stopping what is pending where `interrupt` is
    /// set. Speaking is no optional operation: the request goes to the
    /// backend as it is.
    pub fn speak(&mut self, ids: &mut IdAllocator, text: &str, interrupt: bool) -> (result: Result<
        Option<UtteranceId>,
        Error,
    >)
        requires
            !old(ids).spec_is_exhausted(),
        ensures
            B::speak_spec(
                old(self).backend,
                *old(ids),
                text@,
                interrupt,
                final(self).backend,
                *final(ids),
                result,
            ),
            final(self).backend.spec_features() == old(self).backend.spec_features(),
            final(self).backend.spec_id() == old(self).backend.spec_id(),
    {
        self.backend.speak(ids, text, interrupt)
    }

    /// Stops the speech: every pending utterance is cancelled. To stop a
    /// session that is not speaking is no failure and changes nothing.
    pub fn stop(&mut self) -> (result: Result<(), Error>)
        ensures
            !old(self).backend.spec_features().stop ==> result == Err::<(), Error>(
                Error::UnsupportedFeature,
            ) && *final(self) == *old(self),
            old(self).backend.spec_features().stop ==> B::stop_spec(
                old(self).backend,
                final(self).backend,
                result,
            ),
            old(self).backend.spec_features().stop && old(self).backend.spec_is_speaking() == Ok::<
                bool,
                Error,
            >(false) ==> idle_stop(old(self).backend, final(self).backend, result),
            final(self).backend.spec_features() == old(self).backend.spec_features(),
            final(self).backend.spec_id() == old(self).backend.spec_id(),
    {
        let features = self.backend.supported_features();
        if features.stop {
            self.backend.stop()
        } else {
            Err(Error::UnsupportedFeature)
        }
    }

    /// The value of `parameter` that is in force.
    pub fn get(&self, parameter: Parameter) -> (result: Result<Level, Error>)
        ensures
            result == get_outcome(self.backend, parameter),
    {
        let features = self.backend.supported_features();
        if features.adjusts(parameter) {
            self.backend.get(parameter)
        } else {
            Err(Error::UnsupportedFeature)
        }
    }

    /// Sets `parameter` to `value` for the utterances to come.
    pub fn set(&mut self, parameter: Parameter, value: Level) -> (result: Result<(), Error>)
        ensures
            set_outcome(old(self).backend, parameter, value, final(self).backend, result),
            final(self).backend.spec_features() == old(self).backend.spec_features(),
            final(self).backend.spec_id() == old(self).backend.spec_id(),
    {
        let features = self.backend.supported_features();
        if features.adjusts(parameter) {
            let bounds = self.backend.bounds(parameter);
            if value.within(bounds.min, bounds.max) {
                self.backend.set(parameter, value)
            } else {
                Err(Error::OutOfRange)
            }
        } else {
            Err(Error::UnsupportedFeature)
        }
    }

    /// The least rate that the backend takes.
    pub fn min_rate(&self) -> (level: Level)
        ensures
            level == self.backend.spec_bounds(Parameter::Rate).min,
    {
        self.backend.bounds(Parameter::Rate).min
    }

    /// The greatest rate that the backend takes.
    pub fn max_rate(&self) -> (level: Level)
        ensures
            level == self.backend.spec_bounds(Parameter::Rate).max,
    {
        self.backend.bounds(Parameter::Rate).max
    }

    /// The usual rate of the backend.
    pub fn normal_rate(&self) -> (level: Level)
        ensures
            level == self.backend.spec_bounds(Parameter::Rate).normal,
    {
        self.backend.bounds(Parameter::Rate).normal
    }

    /// The rate in force.
    pub fn get_rate(&self) -> (result: Result<Level, Error>)
        ensures
            result == get_outcome(self.backend, Parameter::Rate),
    {
        self.get(Parameter::Rate)
    }

    /// Sets the rate of the utterances to come.
    pub fn set_rate(&mut self, rate: Level) -> (result: Result<(), Error>)
        ensures
            set_outcome(old(self).backend, Parameter::Rate, rate, final(self).backend, result),
            final(self).backend.spec_features() == old(self).backend.spec_features(),
            final(self).backend.spec_id() == old(self).backend.spec_id(),
    {
        self.set(Parameter::Rate, rate)
    }

    /// The least pitch that the backend takes.
    pub fn min_pitch(&self) -> (level: Level)
        ensures
            level == self.backend.spec_bounds(Parameter::Pitch).min,
    {
        self.backend.bounds(Parameter::Pitch).min
    }

    /// The greatest pitch that the backend takes.
    pub fn max_pitch(&self) -> (level: Level)
        ensures
            level == self.backend.spec_bounds(Parameter::Pitch).max,
    {
        self.backend.bounds(Parameter::Pitch).max
    }

    /// The usual pitch of the backend.
    pub fn normal_pitch(&self) -> (level: Level)
        ensures
            level == self.backend.spec_bounds(Parameter::Pitch).normal,
    {
        self.backend.bounds(Parameter::Pitch).normal
    }

    /// The pitch in force.
    pub fn get_pitch(&self) -> (result: Result<Level, Error>)
        ensures
            result == get_outcome(self.backend, Parameter::Pitch),
    {
        self.get(Parameter::Pitch)
    }

    /// Sets the pitch of the utterances to come.
    pub fn set_pitch(&mut self, pitch: Level) -> (result: Result<(), Error>)
        ensures
            set_outcome(old(self).backend, Parameter::Pitch, pitch, final(self).backend, result),
            final(self).backend.spec_features() == old(self).backend.spec_features(),
            final(self).backend.spec_id() == old(self).backend.spec_id(),
    {
        self.set(Parameter::Pitch, pitch)
    }

    /// The least volume that the backend takes.
    pub fn min_volume(&self) -> (level: Level)
        ensures
            level == self.backend.spec_bounds(Parameter::Volume).min,
    {
        self.backend.bounds(Parameter::Volume).min
    }

    /// The greatest volume that the backend takes.
    pub fn max_volume(&self) -> (level: Level)
        ensures
            level == self.backend.spec_bounds(Parameter::Volume).max,
    {
        self.backend.bounds(Parameter::Volume).max
    }

    /// The usual volume of the backend.
    pub fn normal_volume(&self) -> (level: Level)
        ensures
            level == self.backend.spec_bounds(Parameter::Volume).normal,
    {
        self.backend.bounds(Parameter::Volume).normal
    }

    /// The volume in force.
    pub fn get_volume(&self) -> (result: Result<Level, Error>)
        ensures
            result == get_outcome(self.backend, Parameter::Volume),
    {
        self.get(Parameter::Volume)
    }

    /// Sets the volume of the utterances to come.
    pub fn set_volume(&mut self, volume: Level) -> (result: Result<(), Error>)
        ensures
            set_outcome(old(self).backend, Parameter::Volume, volume, final(self).backend, result),
            final(self).backend.spec_features() == old(self).backend.spec_features(),
            final(self).backend.spec_id() == old(self).backend.spec_id(),
    {
        self.set(Parameter::Volume, volume)
    }

    /// Whether an utterance is pending.
    pub fn is_speaking(&self) -> (result: Result<bool, Error>)
        ensures
            result == (if self.backend.spec_features().is_speaking {
                self.backend.spec_is_speaking()
            } else {
                Err(Error::UnsupportedFeature)
            }),
    {
        let features = self.backend.supported_features();
        if features.is_speaking {
            self.backend.is_speaking()
        } else {
            Err(Error::UnsupportedFeature)
        }
    }

    /// The voices that can be chosen.
    pub fn voices(&self) -> (result: Result<Vec<Voice>, Error>)
        ensures
            !self.backend.spec_features().voice ==> result matches Err(Error::UnsupportedFeature),
            self.backend.spec_features().voice ==> (match result {
                Ok(v) => self.backend.spec_voices() == Ok::<Seq<VoiceView>, Error>(
                    voices_view(v@),
                ),
                Err(e) => self.backend.spec_voices() == Err::<Seq<VoiceView>, Error>(e),
            }),
    {
        let features = self.backend.supported_features();
        if features.voice {
            self.backend.voices()
        } else {
            Err(Error::UnsupportedFeature)
        }
    }

    /// The voice in force.
    pub fn voice(&self) -> (result: Result<Option<Voice>, Error>)
        ensures
            !self.backend.spec_features().get_voice ==> result matches Err(
                Error::UnsupportedFeature,
            ),
            self.backend.spec_features().get_voice ==> (match result {
                Ok(v) => self.backend.spec_voice() == Ok::<Option<VoiceView>, Error>(
                    voice_view(v),
                ),
                Err(e) => self.backend.spec_voice() == Err::<Option<VoiceView>, Error>(e),
            }),
    {
        let features = self.backend.supported_features();
        if features.get_voice {
            self.backend.voice()
        } else {
            Err(Error::UnsupportedFeature)
        }
    }

    /// Chooses the voice of the utterances to come.
    pub fn set_voice(&mut self, voice: &Voice) -> (result: Result<(), Error>)
        ensures
            !old(self).backend.spec_features().voice ==> result == Err::<(), Error>(
                Error::UnsupportedFeature,
            ) && *final(self) == *old(self),
            old(self).backend.spec_features().voice ==> B::set_voice_spec(
                old(self).backend,
                voice@,
                final(self).backend,
                result,
            ),
            final(self).backend.spec_features() == old(self).backend.spec_features(),
            final(self).backend.spec_id() == old(self).backend.spec_id(),
    {
        let features = self.backend.supported_features();
        if features.voice {
            self.backend.set_voice(voice)
        } else {
            Err(Error::UnsupportedFeature)
        }
    }

    /// Registers, replaces or removes the callback of this session for
    /// `moment`.
    ///
    /// Fails with `UnsupportedFeature` where the backend reports no moments,
    /// and with `NoneError` where the session is not entered in `callbacks`.
    /// Either way the registry is left as it was.
    pub fn on_utterance<C>(
        &self,
        callbacks: &mut CallbackRegistry<C>,
        moment: Moment,
        callback: Option<C>,
    ) -> (result: Result<(), Error>)
        ensures
            result == callback_outcome(self.backend, old(callbacks)@.dom()),
            final(callbacks)@ == (if result is Ok {
                old(callbacks)@.insert(
                    self.backend.spec_id()->0,
                    old(callbacks)@[self.backend.spec_id()->0].with(moment, callback),
                )
            } else {
                old(callbacks)@
            }),
    {
        let features = self.backend.supported_features();
        if features.utterance_callbacks {
            match self.backend.id() {
                Some(id) => {
                    if callbacks.set(id, moment, callback) {
                        Ok(())
                    } else {
                        Err(Error::NoneError)
                    }
                },
                None => Err(Error::NoneError),
            }
        } else {
            Err(Error::UnsupportedFeature)
        }
    }

    /// Sets the callback for the moment at which the engine begins to speak
    /// an utterance.
    pub fn on_utterance_begin<C>(&self, callbacks: &mut CallbackRegistry<C>, callback: Option<C>)
        -> (result: Result<(), Error>)
        ensures
            result == callback_outcome(self.backend, old(callbacks)@.dom()),
            final(callbacks)@ == (if result is Ok {
                old(callbacks)@.insert(
                    self.backend.spec_id()->0,
                    old(callbacks)@[self.backend.spec_id()->0].with(Moment::Begin, callback),
                )
            } else {
                old(callbacks)@
            }),
    {
        self.on_utterance(callbacks, Moment::Begin, callback)
    }

    /// Sets the callback for the moment at which the engine has spoken an
    /// utterance to its end.
    pub fn on_utterance_end<C>(&self, callbacks: &mut CallbackRegistry<C>, callback: Option<C>)
        -> (result: Result<(), Error>)
        ensures
            result == callback_outcome(self.backend, old(callbacks)@.dom()),
            final(callbacks)@ == (if result is Ok {
                old(callbacks)@.insert(
                    self.backend.spec_id()->0,
                    old(callbacks)@[self.backend.spec_id()->0].with(Moment::End, callback),
                )
            } else {
                old(callbacks)@
            }),
    {
        self.on_utterance(callbacks, Moment::End, callback)
    }

    /// Sets the callback for the moment at which an utterance is cancelled.
    pub fn on_utterance_stop<C>(&self, callbacks: &mut CallbackRegistry<C>, callback: Option<C>)
        -> (result: Result<(), Error>)
        ensures
            result == callback_outcome(self.backend, old(callbacks)@.dom()),
            final(callbacks)@ == (if result is Ok {
                old(callbacks)@.insert(
                    self.backend.spec_id()->0,
                    old(callbacks)@[self.backend.spec_id()->0].with(Moment::Stop, callback),
                )
            } else {
                old(callbacks)@
            }),
    {
        self.on_utterance(callbacks, Moment::Stop, callback)
    }

    /// Takes note that the engine of the session has played what it was
    /// given to its end.
    pub fn playback_finished(&mut self)
        ensures
            B::finish_spec(old(self).backend, final(self).backend),
            final(self).backend.spec_features() == old(self).backend.spec_features(),
            final(self).backend.spec_id() == old(self).backend.spec_id(),
    {
        self.backend.playback_finished();
    }

    /// Takes note that the engine of the session has refused what it was
    /// given.
    pub fn playback_failed(&mut self)
        ensures
            B::fail_spec(old(self).backend, final(self).backend),
            final(self).backend.spec_features() == old(self).backend.spec_features(),
            final(self).backend.spec_id() == old(self).backend.spec_id(),
    {
        self.backend.playback_failed();
    }

    /// Takes note that a facade of the session goes. Where it is the last
    /// one, the session is closed; where others remain, nothing changes.
    pub fn release(&mut self, last: bool)
        ensures
            last ==> B::close_spec(old(self).backend, final(self).backend),
            !last ==> *final(self) == *old(self),
            final(self).backend.spec_features() == old(self).backend.spec_features(),
            final(self).backend.spec_id() == old(self).backend.spec_id(),
    {
        if last {
            self.backend.close();
        }
    }

    /// Hands out what the backend has recorded for its engine and for the
    /// callbacks since this was last asked, in the order in which it was
    /// recorded.
    pub fn take_effects(&mut self) -> (effects: Vec<Effect>)
        ensures
            effects_view(effects@) == old(self).backend.spec_outbox(),
            final(self).backend.spec_outbox() == Seq::<EffectView>::empty(),
            B::take_spec(old(self).backend, final(self).backend),
            final(self).backend.spec_features() == old(self).backend.spec_features(),
            final(self).backend.spec_id() == old(self).backend.spec_id(),
    {
        self.backend.take_effects()
    }
}

/// The backend that was to be made, or `NoneError` where none came of it:
/// the engine that it needs is not there.
pub fn required<B>(backend: Option<B>) -> (result: Result<B, Error>)
    ensures
        result == (match backend {
            Some(b) => Ok::<B, Error>(b),
            None => Err::<B, Error>(Error::NoneError),
        }),
{
    match backend {
        Some(b) => Ok(b),
        None => Err(Error::NoneError),
    }
}

/// Forgets `session`: its callbacks leave the registry, and the handle of
/// its engine leaves the index. From then on an event of its engine finds
/// no session, and a notification for it no callback.
pub fn forget<C>(session: BackendId, callbacks: &mut CallbackRegistry<C>, handles: &mut HandleIndex)
    ensures
        final(callbacks)@ == old(callbacks)@.remove(session),
        final(handles)@ == old(handles)@.remove(session),
{
    callbacks.unregister(session);
    handles.unbind(session);
}

/// What setting `parameter` to `value` through the facade comes to.
///
/// Where the backend does not adjust the parameter, the call fails with
/// `UnsupportedFeature`. Where it does and the value lies outside the
/// backend's bounds, the call fails with `OutOfRange`. In both cases the
/// backend stays as it was. Only a value inside the bounds reaches the
/// backend, and what the backend makes of it is the outcome.
pub open spec fn set_outcome<B: Backend>(
    pre: B,
    parameter: Parameter,
    value: Level,
    post: B,
    result: Result<(), Error>,
) -> bool {
    if !pre.spec_features().spec_adjusts(parameter) {
        result == Err::<(), Error>(Error::UnsupportedFeature) && post == pre
    } else if !value.spec_within(pre.spec_bounds(parameter).min, pre.spec_bounds(parameter).max) {
        result == Err::<(), Error>(Error::OutOfRange) && post == pre
    } else {
        B::set_spec(pre, parameter, value, post, result)
    }
}

/// What stopping comes to on a session that is not speaking: no failure,
/// nothing recorded for the engine or for a callback, the session still not
/// speaking, and every parameter as it was.
pub open spec fn idle_stop<B: Backend>(pre: B, post: B, result: Result<(), Error>) -> bool {
    &&& result is Ok
    &&& post.spec_outbox() == pre.spec_outbox()
    &&& post.spec_is_speaking() == pre.spec_is_speaking()
    &&& forall|p: Parameter| post.spec_get(p) == pre.spec_get(p)
}

/// What reading `parameter` through the facade comes to: the value that the
/// backend holds, where the backend adjusts the parameter, and
/// `UnsupportedFeature` where it does not.
pub open spec fn get_outcome<B: Backend>(backend: B, parameter: Parameter) -> Result<Level, Error> {
    if backend.spec_features().spec_adjusts(parameter) {
        backend.spec_get(parameter)
    } else {
        Err(Error::UnsupportedFeature)
    }
}

/// What setting a callback of the session of `backend` comes to, where
/// `entered` are the sessions that the registry holds.
pub open spec fn callback_outcome<B: Backend>(backend: B, entered: Set<crate::ids::BackendId>)
    -> Result<(), Error> {
    if !backend.spec_features().utterance_callbacks {
        Err(Error::UnsupportedFeature)
    } else if backend.spec_id() matches Some(id) && entered.contains(id) {
        Ok(())
    } else {
        Err(Error::NoneError)
    }
}

} // verus!
