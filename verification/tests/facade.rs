use tts::{
    Backend, BackendId, Bounds, CallbackRegistry, Effect, Error, Features, IdAllocator, Level,
    Moment, Notification, Parameter, Tts, UtteranceId, Voice, WinRt,
};

fn level(value: f32) -> Level {
    Level::from_bits(value.to_bits())
}

fn number(level: Level) -> f32 {
    f32::from_bits(level.to_bits())
}

fn english() -> Voice {
    Voice::new("en-1".to_string(), "English".to_string(), None, "en-US".to_string())
        .expect("en-US is a well-formed language tag")
}

/// A backend that counts how often the facade reaches it.
struct Mock {
    features: Features,
    rate: Level,
    reached: usize,
    effects: Vec<Effect>,
}

impl Mock {
    fn new(features: Features) -> Mock {
        Mock { features, rate: level(1.0), reached: 0, effects: Vec::new() }
    }
}

impl Backend for Mock {
    fn id(&self) -> Option<BackendId> {
        None
    }

    fn supported_features(&self) -> Features {
        self.features
    }

    fn speak(
        &mut self,
        _ids: &mut IdAllocator,
        text: &str,
        interrupt: bool,
    ) -> Result<Option<UtteranceId>, Error> {
        self.reached += 1;
        self.effects.push(Effect::Say { text: text.to_string(), interrupt });
        Ok(None)
    }

    fn stop(&mut self) -> Result<(), Error> {
        self.reached += 1;
        Ok(())
    }

    fn bounds(&self, _parameter: Parameter) -> Bounds {
        Bounds { min: level(0.5), normal: level(1.0), max: level(2.0) }
    }

    fn get(&self, _parameter: Parameter) -> Result<Level, Error> {
        Ok(self.rate)
    }

    fn set(&mut self, _parameter: Parameter, value: Level) -> Result<(), Error> {
        self.reached += 1;
        self.rate = value;
        Ok(())
    }

    fn is_speaking(&self) -> Result<bool, Error> {
        Ok(false)
    }

    fn voices(&self) -> Result<Vec<Voice>, Error> {
        Ok(Vec::new())
    }

    fn voice(&self) -> Result<Option<Voice>, Error> {
        Ok(None)
    }

    fn set_voice(&mut self, _voice: &Voice) -> Result<(), Error> {
        self.reached += 1;
        Ok(())
    }

    fn playback_finished(&mut self) {
        self.reached += 1;
    }

    fn playback_failed(&mut self) {
        self.reached += 1;
    }

    fn close(&mut self) {
        self.reached += 1;
    }

    fn take_effects(&mut self) -> Vec<Effect> {
        std::mem::take(&mut self.effects)
    }
}

fn only_rate() -> Features {
    let mut features = Features::new();
    features.rate = true;
    features
}

#[test]
fn rate_out_of_range_is_refused_and_never_reaches_the_backend() {
    let mut tts = Tts { backend: Mock::new(only_rate()) };
    assert_eq!(number(tts.min_rate()), 0.5);
    assert_eq!(number(tts.max_rate()), 2.0);
    assert_eq!(number(tts.normal_rate()), 1.0);

    assert_eq!(tts.set_rate(level(3.0)), Err(Error::OutOfRange));
    assert_eq!(tts.backend.reached, 0);
    assert_eq!(tts.set_rate(level(0.49)), Err(Error::OutOfRange));
    assert_eq!(tts.set_rate(level(f32::NAN)), Err(Error::OutOfRange));
    assert_eq!(tts.set_rate(level(f32::INFINITY)), Err(Error::OutOfRange));
    assert_eq!(tts.set_rate(level(-1.5)), Err(Error::OutOfRange));
    assert_eq!(tts.backend.reached, 0);
    assert_eq!(number(tts.get_rate().unwrap()), 1.0);

    assert_eq!(tts.set_rate(level(1.5)), Ok(()));
    assert_eq!(tts.backend.reached, 1);
    assert_eq!(number(tts.get_rate().unwrap()), 1.5);

    // The bounds themselves are inside.
    assert_eq!(tts.set_rate(level(0.5)), Ok(()));
    assert_eq!(tts.set_rate(level(2.0)), Ok(()));
    assert_eq!(tts.backend.reached, 3);
}

#[test]
fn operations_that_are_not_offered_are_refused_and_never_reach_the_backend() {
    let mut tts = Tts { backend: Mock::new(Features::new()) };
    let mut callbacks: CallbackRegistry<u8> = CallbackRegistry::new();

    assert_eq!(tts.stop(), Err(Error::UnsupportedFeature));
    assert_eq!(tts.get_rate(), Err(Error::UnsupportedFeature));
    assert_eq!(tts.set_rate(level(1.0)), Err(Error::UnsupportedFeature));
    assert_eq!(tts.get_pitch(), Err(Error::UnsupportedFeature));
    assert_eq!(tts.set_pitch(level(1.0)), Err(Error::UnsupportedFeature));
    assert_eq!(tts.get_volume(), Err(Error::UnsupportedFeature));
    assert_eq!(tts.set_volume(level(1.0)), Err(Error::UnsupportedFeature));
    assert_eq!(tts.is_speaking(), Err(Error::UnsupportedFeature));
    assert!(matches!(tts.voices(), Err(Error::UnsupportedFeature)));
    assert!(matches!(tts.voice(), Err(Error::UnsupportedFeature)));
    assert_eq!(tts.set_voice(&english()), Err(Error::UnsupportedFeature));
    assert_eq!(tts.on_utterance_begin(&mut callbacks, Some(1)), Err(Error::UnsupportedFeature));
    assert_eq!(tts.on_utterance_end(&mut callbacks, Some(2)), Err(Error::UnsupportedFeature));
    assert_eq!(tts.on_utterance_stop(&mut callbacks, Some(3)), Err(Error::UnsupportedFeature));
    // An unsupported value that is also out of range is still unsupported.
    assert_eq!(tts.set_rate(level(100.0)), Err(Error::UnsupportedFeature));

    assert_eq!(tts.backend.reached, 0);
    assert!(tts.take_effects().is_empty());
    assert_eq!(callbacks.len(), 0);
}

#[test]
fn speaking_is_not_gated() {
    let mut ids = IdAllocator::new();
    let mut tts = Tts { backend: Mock::new(Features::new()) };
    assert_eq!(tts.speak(&mut ids, "hello", true), Ok(None));
    assert_eq!(tts.backend.reached, 1);
    let effects = tts.take_effects();
    assert!(matches!(&effects[..], [Effect::Say { text, interrupt: true }] if text == "hello"));
}

#[test]
fn offered_operations_reach_the_backend() {
    let mut features = Features::new();
    features.stop = true;
    features.voice = true;
    features.is_speaking = true;
    features.get_voice = true;
    let mut tts = Tts { backend: Mock::new(features) };
    assert_eq!(tts.stop(), Ok(()));
    assert_eq!(tts.set_voice(&english()), Ok(()));
    assert_eq!(tts.is_speaking(), Ok(false));
    assert!(matches!(tts.voice(), Ok(None)));
    assert!(matches!(tts.voices(), Ok(v) if v.is_empty()));
    assert_eq!(tts.backend.reached, 2);
}

#[test]
fn new_enters_the_session_in_the_registry() {
    let mut sessions = IdAllocator::new();
    let mut callbacks: CallbackRegistry<&'static str> = CallbackRegistry::new();

    let backend = WinRt::new(&mut sessions, english(), vec![english()]);
    let tts = Tts::new(Ok(backend), &mut callbacks).expect("the backend was made");
    assert!(callbacks.contains(BackendId::WinRt(0)));
    assert_eq!(callbacks.len(), 1);
    let begin = Notification { moment: Moment::Begin, utterance: UtteranceId::WinRt(0) };
    assert!(callbacks.callback_for(BackendId::WinRt(0), begin).is_none());

    assert_eq!(tts.on_utterance_begin(&mut callbacks, Some("begin")), Ok(()));
    assert_eq!(callbacks.callback_for(BackendId::WinRt(0), begin), Some(&"begin"));
    let end = Notification { moment: Moment::End, utterance: UtteranceId::WinRt(0) };
    assert!(callbacks.callback_for(BackendId::WinRt(0), end).is_none());
    assert_eq!(tts.on_utterance_end(&mut callbacks, Some("end")), Ok(()));
    assert_eq!(tts.on_utterance_stop(&mut callbacks, Some("stop")), Ok(()));
    assert_eq!(callbacks.callback_for(BackendId::WinRt(0), end), Some(&"end"));
    assert_eq!(tts.on_utterance_begin(&mut callbacks, None), Ok(()));
    assert!(callbacks.callback_for(BackendId::WinRt(0), begin).is_none());

    // A second session gets the next number and its own entry.
    let second = WinRt::new(&mut sessions, english(), Vec::new());
    let _second = Tts::new(Ok(second), &mut callbacks).expect("the backend was made");
    assert!(callbacks.contains(BackendId::WinRt(1)));
    assert_eq!(callbacks.len(), 2);
}

#[test]
fn new_hands_a_failure_on() {
    let mut callbacks: CallbackRegistry<u8> = CallbackRegistry::new();
    let failed: Result<WinRt, Error> = Err(Error::OperationFailed);
    assert!(matches!(Tts::new(failed, &mut callbacks), Err(Error::OperationFailed)));
    assert_eq!(callbacks.len(), 0);

    let missing: Option<tts::Tolk> = tts::Tolk::new(false);
    let made = Tts::new(tts::tts::required(missing), &mut callbacks);
    assert!(matches!(made, Err(Error::NoneError)));
    let present = Tts::new(tts::tts::required(tts::Tolk::new(true)), &mut callbacks);
    assert!(present.is_ok());
    assert_eq!(callbacks.len(), 0);
}

#[test]
fn a_callback_for_a_session_that_is_not_entered_is_refused() {
    let mut sessions = IdAllocator::new();
    let mut callbacks: CallbackRegistry<u8> = CallbackRegistry::new();
    let tts = Tts { backend: WinRt::new(&mut sessions, english(), Vec::new()) };
    assert_eq!(tts.on_utterance_begin(&mut callbacks, Some(1)), Err(Error::NoneError));
    assert_eq!(callbacks.len(), 0);
}

#[test]
fn a_request_keeps_the_rate_it_was_submitted_with() {
    let mut sessions = IdAllocator::new();
    let mut ids = IdAllocator::new();
    let mut tts = Tts { backend: WinRt::new(&mut sessions, english(), Vec::new()) };

    assert_eq!(tts.set_rate(level(7.0)), Err(Error::OutOfRange));
    assert_eq!(tts.set_rate(level(1.5)), Ok(()));
    // Something is playing, so that the request below has to wait.
    assert_eq!(tts.speak(&mut ids, "first", false), Ok(Some(UtteranceId::WinRt(0))));
    assert_eq!(tts.speak(&mut ids, "hi", false), Ok(Some(UtteranceId::WinRt(1))));
    assert_eq!(tts.set_rate(level(0.5)), Ok(()));
    assert_eq!(number(tts.get_rate().unwrap()), 0.5);
    let _ = tts.take_effects();

    // Playback of "hi" begins only now, and still at the rate of its submission.
    tts.playback_finished();
    let effects = tts.take_effects();
    assert_eq!(effects.len(), 3);
    match &effects[1] {
        Effect::Play(record) => {
            assert_eq!(record.id, UtteranceId::WinRt(1));
            assert_eq!(record.text, "hi");
            assert_eq!(number(record.rate), 1.5);
            assert_eq!(number(record.pitch), 1.0);
            assert_eq!(number(record.volume), 1.0);
        }
        other => panic!("expected the order to play, found {:?}", other),
    }
}

#[test]
fn release_closes_only_with_the_last_facade() {
    let mut tts = Tts { backend: Mock::new(Features::new()) };
    tts.release(false);
    assert_eq!(tts.backend.reached, 0);
    tts.release(true);
    assert_eq!(tts.backend.reached, 1);
}

#[test]
fn stopping_a_session_that_is_not_speaking_changes_nothing() {
    let mut sessions = IdAllocator::new();
    let mut tts = Tts { backend: WinRt::new(&mut sessions, english(), Vec::new()) };
    assert_eq!(tts.set_rate(level(2.0)), Ok(()));
    assert_eq!(tts.set_pitch(level(0.5)), Ok(()));
    assert_eq!(tts.set_volume(level(0.75)), Ok(()));
    assert_eq!(tts.is_speaking(), Ok(false));

    assert_eq!(tts.stop(), Ok(()));
    assert!(tts.take_effects().is_empty());
    assert_eq!(tts.is_speaking(), Ok(false));
    assert_eq!(number(tts.get_rate().unwrap()), 2.0);
    assert_eq!(number(tts.get_pitch().unwrap()), 0.5);
    assert_eq!(number(tts.get_volume().unwrap()), 0.75);
}
