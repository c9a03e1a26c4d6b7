use tts::{
    AppKit, Backend, Delegate, Effect, Error, IdAllocator, Level, Parameter, Speech, Tolk, Tts,
};

fn level(value: f32) -> Level {
    Level::from_bits(value.to_bits())
}

fn number(level: Level) -> f32 {
    f32::from_bits(level.to_bits())
}

fn speech(text: &str, rate: f32, volume: f32) -> Speech {
    Speech { text: text.to_string(), rate: level(rate), volume: level(volume) }
}

/// What the synthesizer is given to start a text: its rate, its volume, the text.
fn started(effects: &[Effect]) -> Vec<(f32, f32, String)> {
    let mut found = Vec::new();
    for chunk in effects.chunks(3) {
        match chunk {
            [Effect::Adjust { parameter: Parameter::Rate, value: rate }, Effect::Adjust { parameter: Parameter::Volume, value: volume }, Effect::Say { text, interrupt: false }] => {
                found.push((number(*rate), number(*volume), text.clone()));
            }
            other => panic!("expected rate, volume and text, found {:?}", other),
        }
    }
    found
}

#[test]
fn the_delegate_hands_out_one_text_at_a_time() {
    let mut delegate = Delegate::new();
    assert_eq!(delegate.count(), 0);
    let first = delegate.enqueue_and_speak(speech("one", 175.0, 1.0)).unwrap();
    assert_eq!((first.text.as_str(), number(first.rate), number(first.volume)), ("one", 175.0, 1.0));
    assert!(delegate.enqueue_and_speak(speech("two", 200.0, 0.5)).is_none());
    assert!(delegate.enqueue_and_speak(speech("three", 300.0, 0.25)).is_none());
    assert_eq!(delegate.count(), 3);
    let second = delegate.speech_synthesizer_did_finish_speaking().unwrap();
    assert_eq!((second.text.as_str(), number(second.rate), number(second.volume)), ("two", 200.0, 0.5));
    let third = delegate.speech_synthesizer_did_finish_speaking().unwrap();
    assert_eq!((third.text.as_str(), number(third.rate), number(third.volume)), ("three", 300.0, 0.25));
    assert!(delegate.speech_synthesizer_did_finish_speaking().is_none());
    assert_eq!(delegate.count(), 0);
    assert!(delegate.speech_synthesizer_did_finish_speaking().is_none());
    assert_eq!(delegate.count(), 0);
}

#[test]
fn clearing_the_queue_of_the_delegate() {
    let mut delegate = Delegate::new();
    delegate.clear_queue();
    assert_eq!(delegate.count(), 0);
    for text in ["a", "b", "c", "d"] {
        let _ = delegate.enqueue_and_speak(speech(text, 175.0, 1.0));
    }
    assert_eq!(delegate.count(), 4);
    delegate.clear_queue();
    assert_eq!(delegate.count(), 0);
    // After clearing, the next text is spoken at once.
    assert!(delegate.enqueue_and_speak(speech("e", 175.0, 1.0)).is_some());
}

#[test]
fn appkit_gives_no_identifiers_and_queues_texts() {
    let mut ids = IdAllocator::new();
    let mut appkit = AppKit::new();
    assert_eq!(appkit.id(), None);
    assert_eq!(appkit.speak(&mut ids, "one", false), Ok(None));
    assert_eq!(appkit.speak(&mut ids, "two", false), Ok(None));
    assert_eq!(ids.issued(), 0);
    assert_eq!(appkit.is_speaking(), Ok(true));
    assert_eq!(started(&appkit.take_effects()), vec![(175.0, 1.0, "one".to_string())]);

    appkit.playback_finished();
    assert_eq!(started(&appkit.take_effects()), vec![(175.0, 1.0, "two".to_string())]);
    appkit.playback_finished();
    assert!(appkit.take_effects().is_empty());
    assert_eq!(appkit.is_speaking(), Ok(false));
}

#[test]
fn a_waiting_text_keeps_the_rate_and_volume_it_was_accepted_with() {
    let mut ids = IdAllocator::new();
    let mut tts = Tts { backend: AppKit::new() };
    tts.speak(&mut ids, "a", false).unwrap();
    tts.set_rate(level(300.0)).unwrap();
    tts.set_volume(level(0.5)).unwrap();
    tts.speak(&mut ids, "b", false).unwrap();
    // Set after "b" was accepted: it is for the texts to come.
    tts.set_rate(level(100.0)).unwrap();
    tts.set_volume(level(0.25)).unwrap();
    tts.speak(&mut ids, "c", false).unwrap();
    tts.set_rate(level(50.0)).unwrap();

    // Setting has recorded nothing for the synthesizer: only "a" was started.
    assert_eq!(started(&tts.take_effects()), vec![(175.0, 1.0, "a".to_string())]);
    assert_eq!(number(tts.get_rate().unwrap()), 50.0);
    assert_eq!(number(tts.get_volume().unwrap()), 0.25);

    tts.playback_finished();
    assert_eq!(started(&tts.take_effects()), vec![(300.0, 0.5, "b".to_string())]);
    tts.playback_finished();
    assert_eq!(started(&tts.take_effects()), vec![(100.0, 0.25, "c".to_string())]);
    tts.playback_finished();
    assert!(tts.take_effects().is_empty());

    // The value set last is in force for what comes now.
    tts.speak(&mut ids, "d", false).unwrap();
    assert_eq!(started(&tts.take_effects()), vec![(50.0, 0.25, "d".to_string())]);
}

#[test]
fn a_report_that_the_synthesizer_did_not_finish_changes_nothing() {
    let mut ids = IdAllocator::new();
    let mut appkit = AppKit::new();
    appkit.speak(&mut ids, "one", false).unwrap();
    appkit.speak(&mut ids, "two", false).unwrap();
    let _ = appkit.take_effects();

    appkit.did_finish_speaking(false);
    assert!(appkit.take_effects().is_empty());
    assert_eq!(appkit.is_speaking(), Ok(true));

    appkit.did_finish_speaking(true);
    assert_eq!(started(&appkit.take_effects()), vec![(175.0, 1.0, "two".to_string())]);
    appkit.did_finish_speaking(true);
    assert!(appkit.take_effects().is_empty());
    assert_eq!(appkit.is_speaking(), Ok(false));
    appkit.did_finish_speaking(true);
    appkit.did_finish_speaking(false);
    assert_eq!(appkit.is_speaking(), Ok(false));
}

#[test]
fn an_interrupted_synthesizer_reports_late_and_the_new_text_stays() {
    let mut ids = IdAllocator::new();
    let mut appkit = AppKit::new();
    appkit.speak(&mut ids, "old", false).unwrap();
    appkit.speak(&mut ids, "now", true).unwrap();
    let _ = appkit.take_effects();
    // The synthesizer reports that it did not finish "old"; "now" is being spoken.
    appkit.did_finish_speaking(false);
    assert_eq!(appkit.is_speaking(), Ok(true));
    appkit.did_finish_speaking(true);
    assert_eq!(appkit.is_speaking(), Ok(false));
}

#[test]
fn appkit_interrupts_by_falling_silent_first() {
    let mut ids = IdAllocator::new();
    let mut appkit = AppKit::new();
    appkit.speak(&mut ids, "one", false).unwrap();
    appkit.speak(&mut ids, "two", false).unwrap();
    let _ = appkit.take_effects();
    assert_eq!(appkit.speak(&mut ids, "now", true), Ok(None));
    let effects = appkit.take_effects();
    assert_eq!(effects.len(), 4);
    assert!(matches!(&effects[0], Effect::Halt));
    assert_eq!(started(&effects[1..]), vec![(175.0, 1.0, "now".to_string())]);
    appkit.playback_finished();
    assert_eq!(appkit.is_speaking(), Ok(false));
}

#[test]
fn appkit_stops_only_what_there_is() {
    let mut ids = IdAllocator::new();
    let mut tts = Tts { backend: AppKit::new() };
    tts.set_rate(level(200.0)).unwrap();
    assert_eq!(tts.stop(), Ok(()));
    assert!(tts.take_effects().is_empty());
    assert_eq!(tts.is_speaking(), Ok(false));
    assert_eq!(number(tts.get_rate().unwrap()), 200.0);
    tts.speak(&mut ids, "one", false).unwrap();
    let _ = tts.take_effects();
    assert_eq!(tts.stop(), Ok(()));
    assert!(matches!(&tts.take_effects()[..], [Effect::Halt]));
    assert_eq!(tts.is_speaking(), Ok(false));
    tts.release(true);
    assert!(tts.take_effects().is_empty());
}

#[test]
fn appkit_has_rate_and_volume_and_no_pitch() {
    let mut tts = Tts { backend: AppKit::new() };
    let features = tts.supported_features();
    assert!(features.stop && features.rate && features.volume && features.is_speaking);
    assert!(!features.pitch && !features.voice && !features.get_voice);
    assert!(!features.utterance_callbacks);

    assert_eq!(
        (number(tts.min_rate()), number(tts.normal_rate()), number(tts.max_rate())),
        (10.0, 175.0, 500.0)
    );
    assert_eq!(
        (number(tts.min_volume()), number(tts.normal_volume()), number(tts.max_volume())),
        (0.0, 1.0, 1.0)
    );
    assert_eq!(number(tts.get_rate().unwrap()), 175.0);
    assert_eq!(number(tts.get_volume().unwrap()), 1.0);

    assert_eq!(tts.set_rate(level(300.0)), Ok(()));
    assert_eq!(tts.set_volume(level(0.5)), Ok(()));
    assert_eq!(number(tts.get_rate().unwrap()), 300.0);
    assert_eq!(number(tts.get_volume().unwrap()), 0.5);
    // A value is for the texts to come: nothing is for the synthesizer yet.
    assert!(tts.take_effects().is_empty());

    assert_eq!(tts.set_rate(level(9.0)), Err(Error::OutOfRange));
    assert_eq!(tts.set_rate(level(501.0)), Err(Error::OutOfRange));
    assert_eq!(tts.set_volume(level(1.5)), Err(Error::OutOfRange));
    assert_eq!(tts.set_pitch(level(1.0)), Err(Error::UnsupportedFeature));
    assert_eq!(tts.get_pitch(), Err(Error::UnsupportedFeature));
    assert!(tts.take_effects().is_empty());
    assert_eq!(number(tts.get_rate().unwrap()), 300.0);
    assert_eq!(tts.backend.get(Parameter::Pitch), Err(Error::UnsupportedFeature));
    assert_eq!(tts.backend.set(Parameter::Pitch, level(1.0)), Err(Error::UnsupportedFeature));
    assert!(matches!(tts.backend.voices(), Err(Error::UnsupportedFeature)));
}

#[test]
fn tolk_needs_a_screen_reader() {
    assert!(Tolk::new(false).is_none());
    assert!(Tolk::new(true).is_some());
}

#[test]
fn tolk_hands_everything_to_the_screen_reader() {
    let mut ids = IdAllocator::new();
    let mut tts = Tts { backend: Tolk::new(true).unwrap() };
    let features = tts.supported_features();
    assert!(features.stop);
    assert!(!features.rate && !features.pitch && !features.volume && !features.is_speaking);
    assert!(!features.voice && !features.get_voice && !features.utterance_callbacks);

    assert_eq!(tts.speak(&mut ids, "hello", false), Ok(None));
    assert_eq!(tts.speak(&mut ids, "world", true), Ok(None));
    assert_eq!(tts.stop(), Ok(()));
    assert_eq!(ids.issued(), 0);
    let effects = tts.take_effects();
    assert_eq!(effects.len(), 3);
    assert!(matches!(&effects[0], Effect::Say { text, interrupt: false } if text == "hello"));
    assert!(matches!(&effects[1], Effect::Say { text, interrupt: true } if text == "world"));
    assert!(matches!(&effects[2], Effect::Halt));

    assert_eq!(tts.set_rate(level(0.0)), Err(Error::UnsupportedFeature));
    assert_eq!(tts.is_speaking(), Err(Error::UnsupportedFeature));
    assert_eq!(tts.backend.get(Parameter::Rate), Err(Error::UnsupportedFeature));
    assert_eq!(tts.backend.is_speaking(), Err(Error::UnsupportedFeature));
    tts.release(true);
    assert!(tts.take_effects().is_empty());
}

#[test]
fn a_text_that_appkit_refuses_leaves_like_one_that_was_spoken() {
    let mut ids = IdAllocator::new();
    let mut appkit = AppKit::new();
    appkit.speak(&mut ids, "one", false).unwrap();
    appkit.speak(&mut ids, "two", false).unwrap();
    let _ = appkit.take_effects();
    appkit.playback_failed();
    assert_eq!(started(&appkit.take_effects()), vec![(175.0, 1.0, "two".to_string())]);
    appkit.playback_failed();
    assert_eq!(appkit.is_speaking(), Ok(false));
}
