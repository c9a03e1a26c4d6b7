use tts::av_foundation::{bounds, describe_voice, features, gender, notification, AvFoundation, Report};
use tts::{BackendId, Effect, Gender, IdAllocator, Level, Moment, Notification, Parameter, UtteranceId};

fn level(value: f32) -> Level {
    Level::from_bits(value.to_bits())
}

fn number(level: Level) -> f32 {
    f32::from_bits(level.to_bits())
}

#[test]
fn a_new_session_of_avfoundation() {
    let mut ids = IdAllocator::new();
    let first = AvFoundation::new(&mut ids);
    let second = AvFoundation::new(&mut ids);
    assert_eq!(first.id, BackendId::AvFoundation(0));
    assert_eq!(second.id, BackendId::AvFoundation(1));
    assert_eq!(number(first.rate), 0.5);
    assert_eq!(number(first.volume), 1.0);
    assert_eq!(number(first.pitch), 1.0);
    assert!(first.voice.is_none());
}

#[test]
fn the_synthesizer_falls_silent_only_if_there_is_something_to_interrupt() {
    let mut ids = IdAllocator::new();
    let mut av = AvFoundation::new(&mut ids);
    av.set(Parameter::Pitch, level(1.5));

    let (id, effects) = av.speak(0x7f00, "hello", false, true);
    assert_eq!(id, UtteranceId::AvFoundation(0x7f00));
    assert!(matches!(&effects[..], [Effect::Play(u)]
        if u.id == id && u.text == "hello" && number(u.pitch) == 1.5 && number(u.rate) == 0.5));

    let (_, effects) = av.speak(0x7f10, "hello", true, false);
    assert!(matches!(&effects[..], [Effect::Play(_)]));

    let (_, effects) = av.speak(0x7f20, "now", true, true);
    assert!(matches!(&effects[..], [Effect::Halt, Effect::Play(u)] if u.text == "now"));
}

#[test]
fn reports_of_the_delegate_find_their_callback() {
    let note = |moment| (
        BackendId::AvFoundation(2),
        Notification { moment, utterance: UtteranceId::AvFoundation(4096) },
    );
    assert_eq!(notification(Report::DidStart, 2, 4096), note(Moment::Begin));
    assert_eq!(notification(Report::DidFinish, 2, 4096), note(Moment::End));
    assert_eq!(notification(Report::DidCancel, 2, 4096), note(Moment::Stop));
}

#[test]
fn genders_by_their_code() {
    assert_eq!(gender(0), None);
    assert_eq!(gender(1), Some(Gender::Male));
    assert_eq!(gender(2), Some(Gender::Female));
    assert_eq!(gender(3), None);
    assert_eq!(gender(-1), None);
}

#[test]
fn voices_of_avfoundation_are_described() {
    let voice = describe_voice(
        "com.apple.voice.compact.en-US.Samantha".to_string(),
        "Samantha".to_string(),
        2,
        "en-US".to_string(),
    )
    .unwrap();
    assert_eq!(voice.id(), "com.apple.voice.compact.en-US.Samantha");
    assert_eq!(voice.name(), "Samantha");
    assert_eq!(voice.gender(), Some(Gender::Female));
    assert_eq!(voice.language(), "en-US");
    assert!(describe_voice("x".to_string(), "X".to_string(), 0, "en_US".to_string()).is_none());

    let mut ids = IdAllocator::new();
    let mut av = AvFoundation::new(&mut ids);
    av.set_voice(&voice);
    let (_, effects) = av.speak(1, "hi", false, false);
    assert!(matches!(&effects[0], Effect::Play(u) if u.voice.as_ref().map(|v| v.name()) == Some("Samantha".to_string())));
}

#[test]
fn features_and_bounds_of_avfoundation() {
    let f = features();
    assert!(f.stop && f.rate && f.pitch && f.volume && f.is_speaking && f.voice);
    assert!(f.utterance_callbacks && !f.get_voice);
    let rate = bounds(Parameter::Rate);
    assert_eq!((number(rate.min), number(rate.normal), number(rate.max)), (0.1, 0.5, 2.0));
    let pitch = bounds(Parameter::Pitch);
    assert_eq!((number(pitch.min), number(pitch.normal), number(pitch.max)), (0.5, 1.0, 2.0));
    let volume = bounds(Parameter::Volume);
    assert_eq!((number(volume.min), number(volume.normal), number(volume.max)), (0.0, 1.0, 1.0));
    let mut ids = IdAllocator::new();
    let mut av = AvFoundation::new(&mut ids);
    av.set(Parameter::Rate, level(1.0));
    av.set(Parameter::Volume, level(0.5));
    assert_eq!(number(av.get(Parameter::Rate)), 1.0);
    assert_eq!(number(av.get(Parameter::Volume)), 0.5);
    assert_eq!(number(av.get(Parameter::Pitch)), 1.0);
}
