//! The backend of the Windows Runtime.
//!
//! Its player holds one stream at a time, so the backend keeps the queue of
//! pending utterances itself, and starts the next one when the player
//! reports that it has played the last one to its end.

use crate::backend::{voices_view, Backend, Bounds, Parameter};
use crate::error::Error;
use crate::features::Features;
use crate::ids::{BackendId, IdAllocator, UtteranceId};
use crate::level::Level;
use crate::queue::{
    finish_effects, pending_after_finish, pending_after_speak, reject_effects, speak_effects,
    stop_effects, UtteranceQueue,
};
use crate::utterance::{effects_view, Effect, EffectView, Utterance, UtteranceView};
use crate::voice::{language_identifier_text, language_tag_parses, Gender, Voice, VoiceView};
use vstd::prelude::*;

verus! {

/// The bit pattern of the number 0.
pub const ZERO: u32 = 0x0000_0000;

/// The bit pattern of the number 0.5.
pub const HALF: u32 = 0x3F00_0000;

/// The bit pattern of the number 1.
pub const ONE: u32 = 0x3F80_0000;

/// The bit pattern of the number 2.
pub const TWO: u32 = 0x4000_0000;

/// The bit pattern of the number 6.
pub const SIX: u32 = 0x40C0_0000;

/// What the backend offers: everything.
pub open spec fn features() -> Features {
    Features {
        stop: true,
        rate: true,
        pitch: true,
        volume: true,
        is_speaking: true,
        voice: true,
        get_voice: true,
        utterance_callbacks: true,
    }
}

/// The bounds of the backend: rates from 0.5 to 6, pitches from 0 to 2,
/// volumes from 0 to 1, each with 1 as the usual value.
pub open spec fn bounds(parameter: Parameter) -> Bounds {
    match parameter {
        Parameter::Rate => Bounds {
            min: Level::spec_from_bits(HALF),
            normal: Level::spec_from_bits(ONE),
            max: Level::spec_from_bits(SIX),
        },
        Parameter::Pitch => Bounds {
            min: Level::spec_from_bits(ZERO),
            normal: Level::spec_from_bits(ONE),
            max: Level::spec_from_bits(TWO),
        },
        Parameter::Volume => Bounds {
            min: Level::spec_from_bits(ZERO),
            normal: Level::spec_from_bits(ONE),
            max: Level::spec_from_bits(ONE),
        },
    }
}

/// The first of `installed` that the engine knows by `id`.
pub open spec fn find_voice(installed: Seq<VoiceView>, id: Seq<char>) -> Option<VoiceView>
    decreases installed.len(),
{
    if installed.len() == 0 {
        None
    } else if installed[0].id == id {
        Some(installed[0])
    } else {
        find_voice(installed.drop_first(), id)
    }
}

/// The voice that the engine describes so: it knows the voice by `id`, shows
/// it as `name`, tells whether it is male, and names its language by a
/// Unicode language identifier. The engine tells of two genders only, so a
/// voice that is not male is female. Where the language cannot be read,
/// there is no voice.
pub fn describe_voice(id: String, name: String, male: bool, language: &str) -> (voice: Option<Voice>)
    ensures
        voice is Some <==> (language_identifier_text(language@) matches Some(text)
            && language_tag_parses(text)),
        voice matches Some(v) ==> v@ == (VoiceView {
            id: id@,
            name: name@,
            gender: Some(if male {
                Gender::Male
            } else {
                Gender::Female
            }),
            language: language_identifier_text(language@)->0,
        }),
{
    let gender = if male {
        Gender::Male
    } else {
        Gender::Female
    };
    Voice::with_language_identifier(id, name, Some(gender), language)
}

/// One session of the backend.
#[derive(Debug)]
pub struct WinRt {
    number: u64,
    utterances: UtteranceQueue,
    rate: Level,
    pitch: Level,
    volume: Level,
    voice: Voice,
    installed: Vec<Voice>,
    outbox: Vec<Effect>,
}

/// What a session holds.
pub struct WinRtView {
    /// The identity of the session.
    pub id: BackendId,
    /// The pending utterances, the one that is played first.
    pub pending: Seq<UtteranceView>,
    /// The rate of the utterances to come.
    pub rate: Level,
    /// The pitch of the utterances to come.
    pub pitch: Level,
    /// The volume of the utterances to come.
    pub volume: Level,
    /// The voice of the utterances to come.
    pub voice: VoiceView,
    /// The voices that the engine has, as they were when the session began.
    pub installed: Seq<VoiceView>,
    /// The effects that are recorded and not yet taken.
    pub outbox: Seq<EffectView>,
}

impl WinRtView {
    /// The record of a request to speak `text` that is accepted now as
    /// utterance `number`: it takes the rate, pitch, volume and voice that
    /// are in force.
    pub open spec fn record(self, number: nat, text: Seq<char>) -> UtteranceView {
        UtteranceView {
            id: UtteranceId::WinRt(number as u64),
            text,
            rate: self.rate,
            pitch: self.pitch,
            volume: self.volume,
            voice: Some(self.voice),
        }
    }

    /// The session after a request to speak `text` was accepted as utterance
    /// `number`.
    pub open spec fn speak(self, number: nat, text: Seq<char>, interrupt: bool) -> WinRtView {
        WinRtView {
            pending: pending_after_speak(self.pending, self.record(number, text), interrupt),
            outbox: self.outbox + speak_effects(
                self.pending,
                self.record(number, text),
                interrupt,
            ),
            ..self
        }
    }

    /// The session after it was stopped.
    pub open spec fn stop(self) -> WinRtView {
        WinRtView {
            pending: Seq::empty(),
            outbox: self.outbox + stop_effects(self.pending),
            ..self
        }
    }

    /// The session after the player has played its stream to the end.
    pub open spec fn finish(self) -> WinRtView {
        WinRtView {
            pending: pending_after_finish(self.pending),
            outbox: self.outbox + finish_effects(self.pending),
            ..self
        }
    }

    /// The session after the engine has refused the utterance at the head
    /// of the queue.
    pub open spec fn reject(self) -> WinRtView {
        WinRtView {
            pending: pending_after_finish(self.pending),
            outbox: self.outbox + reject_effects(self.pending),
            ..self
        }
    }

    /// The session after `parameter` was set to `value`. Nothing that is
    /// pending changes.
    pub open spec fn set(self, parameter: Parameter, value: Level) -> WinRtView {
        match parameter {
            Parameter::Rate => WinRtView { rate: value, ..self },
            Parameter::Pitch => WinRtView { pitch: value, ..self },
            Parameter::Volume => WinRtView { volume: value, ..self },
        }
    }

    /// The value of `parameter` that is in force.
    pub open spec fn get(self, parameter: Parameter) -> Level {
        match parameter {
            Parameter::Rate => self.rate,
            Parameter::Pitch => self.pitch,
            Parameter::Volume => self.volume,
        }
    }

    /// The session after it was closed: it is stopped, and asks to be
    /// forgotten after that.
    pub open spec fn close(self) -> WinRtView {
        WinRtView { outbox: self.stop().outbox.push(EffectView::Forget(self.id)), ..self.stop() }
    }

    /// The session after its effects were taken.
    pub open spec fn taken(self) -> WinRtView {
        WinRtView { outbox: Seq::empty(), ..self }
    }
}

impl View for WinRt {
    type V = WinRtView;

    closed spec fn view(&self) -> WinRtView {
        WinRtView {
            id: BackendId::WinRt(self.number),
            pending: self.utterances@,
            rate: self.rate,
            pitch: self.pitch,
            volume: self.volume,
            voice: self.voice@,
            installed: voices_view(self.installed@),
            outbox: effects_view(self.outbox@),
        }
    }
}

impl WinRt {
    /// A new session: idle, with rate, pitch and volume at 1, with `voice`
    /// in force and `installed` as the voices to choose from. The session
    /// takes the next number of `ids`.
    pub fn new(ids: &mut IdAllocator, voice: Voice, installed: Vec<Voice>) -> (session: WinRt)
        requires
            !old(ids).spec_is_exhausted(),
        ensures
            final(ids).spec_issued() == old(ids).spec_issued() + 1,
            session@ == (WinRtView {
                id: BackendId::WinRt(old(ids).spec_issued() as u64),
                pending: Seq::empty(),
                rate: Level::spec_from_bits(ONE),
                pitch: Level::spec_from_bits(ONE),
                volume: Level::spec_from_bits(ONE),
                voice: voice@,
                installed: voices_view(installed@),
                outbox: Seq::empty(),
            }),
    {
        let number: u64 = ids.issued();
        let _ = ids.next_backend_id(crate::ids::Backends::WinRt);
        let session = WinRt {
            number,
            utterances: UtteranceQueue::new(),
            rate: Level::from_bits(ONE),
            pitch: Level::from_bits(ONE),
            volume: Level::from_bits(ONE),
            voice,
            installed,
            outbox: Vec::new(),
        };
        assert(session@.outbox =~= Seq::<EffectView>::empty());
        session
    }

    fn record(&mut self, effects: Vec<Effect>)
        ensures
            final(self)@ == (WinRtView {
                outbox: old(self)@.outbox + effects_view(effects@),
                ..old(self)@
            }),
    {
        let mut effects = effects;
        let ghost added = effects@;
        let ghost before = self.outbox@;
        self.outbox.append(&mut effects);
        assert(effects_view(before + added) =~= effects_view(before) + effects_view(added));
    }

    fn find(&self, voice: &Voice) -> (found: Option<usize>)
        ensures
            match found {
                Some(i) => i < self.installed@.len() && find_voice(self@.installed, voice@.id)
                    == Some(self.installed@[i as int]@),
                None => find_voice(self@.installed, voice@.id) is None,
            },
    {
        let ghost all = self@.installed;
        let mut i: usize = 0;
        assert(all.subrange(0, all.len() as int) =~= all);
        while i < self.installed.len()
            invariant
                i <= self.installed@.len(),
                all == voices_view(self.installed@),
                find_voice(all, voice@.id) == find_voice(all.subrange(i as int, all.len() as int), voice@.id),
            decreases self.installed@.len() - i,
        {
            let ghost rest = all.subrange(i as int, all.len() as int);
            if self.installed[i].has_id_of(voice) {
                assert(rest[0] == self.installed@[i as int]@);
                return Some(i);
            }
            assert(rest.drop_first() =~= all.subrange(i + 1, all.len() as int));
            i += 1;
        }
        assert(all.subrange(i as int, all.len() as int) =~= Seq::<VoiceView>::empty());
        None
    }
}

impl Backend for WinRt {
    open spec fn spec_id(&self) -> Option<BackendId> {
        Some(self@.id)
    }

    open spec fn spec_features(&self) -> Features {
        features()
    }

    open spec fn spec_bounds(&self, parameter: Parameter) -> Bounds {
        bounds(parameter)
    }

    open spec fn spec_outbox(&self) -> Seq<EffectView> {
        self@.outbox
    }

    open spec fn spec_get(&self, parameter: Parameter) -> Result<Level, Error> {
        Ok(self@.get(parameter))
    }

    open spec fn spec_is_speaking(&self) -> Result<bool, Error> {
        Ok(self@.pending.len() > 0)
    }

    open spec fn spec_voices(&self) -> Result<Seq<VoiceView>, Error> {
        Ok(self@.installed)
    }

    open spec fn spec_voice(&self) -> Result<Option<VoiceView>, Error> {
        Ok(Some(self@.voice))
    }

    /// Every request is accepted. The utterance takes the next number of
    /// the counter, and the session goes on as `WinRtView::speak` says.
    open spec fn speak_spec(
        pre: Self,
        ids_pre: IdAllocator,
        text: Seq<char>,
        interrupt: bool,
        post: Self,
        ids_post: IdAllocator,
        result: Result<Option<UtteranceId>, Error>,
    ) -> bool {
        &&& result == Ok::<Option<UtteranceId>, Error>(
            Some(UtteranceId::WinRt(ids_pre.spec_issued() as u64)),
        )
        &&& ids_post.spec_issued() == ids_pre.spec_issued() + 1
        &&& post@ == pre@.speak(ids_pre.spec_issued(), text, interrupt)
    }

    open spec fn stop_spec(pre: Self, post: Self, result: Result<(), Error>) -> bool {
        result is Ok && post@ == pre@.stop()
    }

    open spec fn set_spec(
        pre: Self,
        parameter: Parameter,
        value: Level,
        post: Self,
        result: Result<(), Error>,
    ) -> bool {
        result is Ok && post@ == pre@.set(parameter, value)
    }

    /// The voice is chosen where the engine has one by its identifier; the
    /// engine's own record of it comes into force. Where it has none, the
    /// call fails and nothing changes.
    open spec fn set_voice_spec(pre: Self, voice: VoiceView, post: Self, result: Result<(), Error>)
        -> bool {
        match find_voice(pre@.installed, voice.id) {
            Some(v) => result is Ok && post@ == (WinRtView { voice: v, ..pre@ }),
            None => result == Err::<(), Error>(Error::OperationFailed) && post == pre,
        }
    }

    open spec fn close_spec(pre: Self, post: Self) -> bool {
        post@ == pre@.close()
    }

    /// The utterance at the head of the queue has been spoken: it leaves,
    /// and its end is announced. The utterance behind it, if there is one, is
    /// started with its own snapshot. On an idle session nothing changes.
    open spec fn finish_spec(pre: Self, post: Self) -> bool {
        post@ == pre@.finish()
    }

    /// The utterance at the head of the queue leaves, unannounced. The
    /// utterance behind it, if there is one, is started. On an idle session
    /// nothing changes.
    open spec fn fail_spec(pre: Self, post: Self) -> bool {
        post@ == pre@.reject()
    }

    open spec fn take_spec(pre: Self, post: Self) -> bool {
        post@ == pre@.taken()
    }

    fn id(&self) -> (id: Option<BackendId>) {
        Some(BackendId::WinRt(self.number))
    }

    fn supported_features(&self) -> (features: Features) {
        Features {
            stop: true,
            rate: true,
            pitch: true,
            volume: true,
            is_speaking: true,
            voice: true,
            get_voice: true,
            utterance_callbacks: true,
        }
    }

    fn speak(&mut self, ids: &mut IdAllocator, text: &str, interrupt: bool) -> (result: Result<
        Option<UtteranceId>,
        Error,
    >) {
        let id = match ids.next_utterance_id(BackendId::WinRt(self.number)) {
            Some(id) => id,
            None => {
                proof {
                    assert(false);
                }
                return Err(Error::OperationFailed);
            },
        };
        let record = Utterance {
            id,
            text: text.to_owned(),
            rate: self.rate,
            pitch: self.pitch,
            volume: self.volume,
            voice: Some(self.voice.clone()),
        };
        assert(record@ == old(self)@.record(old(ids).spec_issued(), text@));
        let effects = self.utterances.speak(record, interrupt);
        self.record(effects);
        Ok(Some(id))
    }

    fn stop(&mut self) -> (result: Result<(), Error>) {
        let effects = self.utterances.stop();
        self.record(effects);
        assert(old(self)@.pending.len() == 0 ==> self@.outbox =~= old(self)@.outbox);
        Ok(())
    }

    fn bounds(&self, parameter: Parameter) -> (bounds: Bounds) {
        match parameter {
            Parameter::Rate => Bounds {
                min: Level::from_bits(HALF),
                normal: Level::from_bits(ONE),
                max: Level::from_bits(SIX),
            },
            Parameter::Pitch => Bounds {
                min: Level::from_bits(ZERO),
                normal: Level::from_bits(ONE),
                max: Level::from_bits(TWO),
            },
            Parameter::Volume => Bounds {
                min: Level::from_bits(ZERO),
                normal: Level::from_bits(ONE),
                max: Level::from_bits(ONE),
            },
        }
    }

    fn get(&self, parameter: Parameter) -> (result: Result<Level, Error>) {
        match parameter {
            Parameter::Rate => Ok(self.rate),
            Parameter::Pitch => Ok(self.pitch),
            Parameter::Volume => Ok(self.volume),
        }
    }

    fn set(&mut self, parameter: Parameter, value: Level) -> (result: Result<(), Error>) {
        match parameter {
            Parameter::Rate => {
                self.rate = value;
            },
            Parameter::Pitch => {
                self.pitch = value;
            },
            Parameter::Volume => {
                self.volume = value;
            },
        }
        Ok(())
    }

    fn is_speaking(&self) -> (result: Result<bool, Error>) {
        Ok(self.utterances.is_speaking())
    }

    fn voices(&self) -> (result: Result<Vec<Voice>, Error>) {
        let mut voices: Vec<Voice> = Vec::new();
        let mut i: usize = 0;
        while i < self.installed.len()
            invariant
                i <= self.installed@.len(),
                voices@ == self.installed@.subrange(0, i as int),
            decreases self.installed@.len() - i,
        {
            voices.push(self.installed[i].clone());
            assert(voices@ =~= self.installed@.subrange(0, i + 1));
            i += 1;
        }
        assert(voices@ =~= self.installed@);
        Ok(voices)
    }

    fn voice(&self) -> (result: Result<Option<Voice>, Error>) {
        Ok(Some(self.voice.clone()))
    }

    fn set_voice(&mut self, voice: &Voice) -> (result: Result<(), Error>) {
        match self.find(voice) {
            Some(i) => {
                self.voice = self.installed[i].clone();
                Ok(())
            },
            None => Err(Error::OperationFailed),
        }
    }

    fn playback_finished(&mut self) {
        let effects = self.utterances.finish();
        self.record(effects);
    }

    fn playback_failed(&mut self) {
        let effects = self.utterances.reject();
        self.record(effects);
    }

    fn close(&mut self) {
        let mut effects = self.utterances.stop();
        let ghost stopped = effects_view(effects@);
        effects.push(Effect::Forget(BackendId::WinRt(self.number)));
        assert(effects_view(effects@) =~= stopped.push(EffectView::Forget(self@.id)));
        self.record(effects);
        assert(self@.outbox =~= old(self)@.close().outbox);
    }

    fn take_effects(&mut self) -> (effects: Vec<Effect>) {
        let mut effects: Vec<Effect> = Vec::new();
        core::mem::swap(&mut self.outbox, &mut effects);
        assert(self@.outbox =~= Seq::<EffectView>::empty());
        effects
    }
}

} // verus!
