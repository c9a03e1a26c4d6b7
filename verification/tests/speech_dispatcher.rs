use tts::speech_dispatcher::{bounds, features, plan_speak, spoken, Signal, SpeakPlan, Speaking};
use tts::{BackendId, Error, Level, Moment, Notification, Parameter, UtteranceId};

fn number(level: Level) -> f32 {
    f32::from_bits(level.to_bits())
}

#[test]
fn signals_of_the_daemon_find_their_callback() {
    let mut speaking = Speaking::new();
    speaking.open(3);
    assert_eq!(speaking.is_speaking(3), Some(false));
    let to = |moment| Some((
        BackendId::SpeechDispatcher(3),
        Notification { moment, utterance: UtteranceId::SpeechDispatcher(40) },
    ));

    assert_eq!(speaking.on_signal(Signal::Begin, 40, 3), to(Moment::Begin));
    assert_eq!(speaking.is_speaking(3), Some(true));
    assert_eq!(speaking.on_signal(Signal::Pause, 40, 3), None);
    assert_eq!(speaking.is_speaking(3), Some(false));
    assert_eq!(speaking.on_signal(Signal::Resume, 40, 3), None);
    assert_eq!(speaking.is_speaking(3), Some(true));
    assert_eq!(speaking.on_signal(Signal::End, 40, 3), to(Moment::End));
    assert_eq!(speaking.is_speaking(3), Some(false));
    assert_eq!(speaking.on_signal(Signal::Begin, 40, 3), to(Moment::Begin));
    assert_eq!(speaking.on_signal(Signal::Cancel, 40, 3), to(Moment::Stop));
    assert_eq!(speaking.is_speaking(3), Some(false));
}

#[test]
fn connections_are_apart() {
    let mut speaking = Speaking::new();
    assert_eq!(speaking.is_speaking(1), None);
    speaking.open(1);
    speaking.open(2);
    let _ = speaking.on_signal(Signal::Begin, 7, 2);
    assert_eq!(speaking.is_speaking(1), Some(false));
    assert_eq!(speaking.is_speaking(2), Some(true));
    speaking.close(2);
    assert_eq!(speaking.is_speaking(2), None);
    assert_eq!(speaking.is_speaking(1), Some(false));
}

#[test]
fn a_single_byte_is_said_with_its_punctuation() {
    assert_eq!(plan_speak("?", false), SpeakPlan { cancel_first: false, spell_punctuation: true });
    assert_eq!(plan_speak("a", true), SpeakPlan { cancel_first: true, spell_punctuation: true });
    assert_eq!(plan_speak("", false), SpeakPlan { cancel_first: false, spell_punctuation: false });
    assert_eq!(plan_speak("ab", false), SpeakPlan { cancel_first: false, spell_punctuation: false });
    assert_eq!(plan_speak("é", true), SpeakPlan { cancel_first: true, spell_punctuation: false });
    assert_eq!(plan_speak("Hello, world!", true), SpeakPlan { cancel_first: true, spell_punctuation: false });
}

#[test]
fn a_text_that_the_daemon_did_not_take() {
    assert_eq!(spoken(Some(9)), Ok(Some(UtteranceId::SpeechDispatcher(9))));
    assert_eq!(spoken(None), Err(Error::NoneError));
}

#[test]
fn features_and_bounds_of_speech_dispatcher() {
    let f = features();
    assert!(f.stop && f.rate && f.pitch && f.volume && f.is_speaking && f.utterance_callbacks);
    assert!(!f.voice && !f.get_voice);
    let rate = bounds(Parameter::Rate);
    assert_eq!((number(rate.min), number(rate.normal), number(rate.max)), (-100.0, 0.0, 100.0));
    let pitch = bounds(Parameter::Pitch);
    assert_eq!((number(pitch.min), number(pitch.normal), number(pitch.max)), (-100.0, 0.0, 100.0));
    let volume = bounds(Parameter::Volume);
    assert_eq!((number(volume.min), number(volume.normal), number(volume.max)), (-100.0, 100.0, 100.0));
}
