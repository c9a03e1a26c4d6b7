use tts::android::{
    accepted, bounds, features, notification, poll_initialization, queue_mode, session_number,
    Android, BridgeEvent, Initialization, PendingInitializations, MAX_WAIT_MILLIS, POLL_MILLIS,
};
use tts::{BackendId, Error, IdAllocator, Level, Moment, Notification, Parameter, UtteranceId};

fn level(value: f32) -> Level {
    Level::from_bits(value.to_bits())
}

fn number(level: Level) -> f32 {
    f32::from_bits(level.to_bits())
}

#[test]
fn a_session_waits_for_its_engine() {
    let mut ids = IdAllocator::new();
    let mut pending = PendingInitializations::new();
    let first = Android::begin(&mut ids, &mut pending);
    let second = Android::begin(&mut ids, &mut pending);
    assert_eq!((first, second), (0, 1));
    assert!(pending.contains(0) && pending.contains(1));

    assert_eq!(poll_initialization(&pending, 0, 0), Initialization::Wait);
    assert_eq!(poll_initialization(&pending, 0, 495), Initialization::Wait);
    assert_eq!(poll_initialization(&pending, 0, 500), Initialization::Wait);
    assert_eq!(poll_initialization(&pending, 0, 501), Initialization::TimedOut);
    assert_eq!(poll_initialization(&pending, 0, u64::MAX), Initialization::TimedOut);

    pending.remove(0);
    assert_eq!(poll_initialization(&pending, 0, 0), Initialization::Ready);
    // A report that comes late is still a report.
    assert_eq!(poll_initialization(&pending, 0, 10_000), Initialization::Ready);
    assert_eq!(poll_initialization(&pending, 1, 10), Initialization::Wait);
    assert_eq!(poll_initialization(&pending, 7, 10), Initialization::Ready);
    assert_eq!((MAX_WAIT_MILLIS, POLL_MILLIS), (500, 5));
}

#[test]
fn a_session_is_made_once_its_engine_is_ready() {
    let made = Android::new(Initialization::Ready, 3).unwrap().unwrap();
    assert_eq!(made.id, BackendId::Android(3));
    assert_eq!(number(made.rate), 1.0);
    assert_eq!(number(made.pitch), 1.0);
    assert!(matches!(
        Android::new(Initialization::TimedOut, 3),
        Some(Err(Error::InitializationTimeout))
    ));
    assert!(Android::new(Initialization::Wait, 3).is_none());
}

#[test]
fn events_of_the_bridge_find_their_callback() {
    let note = |moment| Notification { moment, utterance: UtteranceId::Android(12) };
    assert_eq!(
        notification(BridgeEvent::Start, 4, "12"),
        Some((BackendId::Android(4), note(Moment::Begin)))
    );
    assert_eq!(
        notification(BridgeEvent::Done, 4, "12"),
        Some((BackendId::Android(4), note(Moment::End)))
    );
    assert_eq!(
        notification(BridgeEvent::Stop, 4, "12"),
        Some((BackendId::Android(4), note(Moment::Stop)))
    );
    assert_eq!(
        notification(BridgeEvent::Error, 4, "12"),
        Some((BackendId::Android(4), note(Moment::End)))
    );
    assert_eq!(BridgeEvent::Start.moment(), Moment::Begin);
}

#[test]
fn an_event_of_an_unknown_utterance_is_dropped() {
    assert_eq!(notification(BridgeEvent::Start, 0, ""), None);
    assert_eq!(notification(BridgeEvent::Done, 0, "twelve"), None);
    assert_eq!(notification(BridgeEvent::Stop, 0, "-1"), None);
    assert_eq!(notification(BridgeEvent::Error, 0, "18446744073709551616"), None);
}

#[test]
fn the_number_of_a_session_from_the_field_of_its_bridge() {
    assert_eq!(session_number(0), 0);
    assert_eq!(session_number(17), 17);
    assert_eq!(session_number(i32::MAX), i32::MAX as u64);
    assert_eq!(session_number(-1), u64::MAX);
    assert_eq!(session_number(-2), (-2i32) as u64);
    assert_eq!(session_number(i32::MIN), i32::MIN as u64);
}

#[test]
fn queue_modes_and_statuses() {
    assert_eq!(queue_mode(true), 0);
    assert_eq!(queue_mode(false), 1);
    assert_eq!(accepted(0), Ok(()));
    assert_eq!(accepted(-1), Err(Error::OperationFailed));
    assert_eq!(accepted(1), Err(Error::OperationFailed));
    assert_eq!(Android::spoken(UtteranceId::Android(5), 0), Ok(Some(UtteranceId::Android(5))));
    assert_eq!(Android::spoken(UtteranceId::Android(5), -1), Err(Error::OperationFailed));
}

#[test]
fn a_value_is_in_force_only_if_the_engine_took_it() {
    let mut android = Android::new(Initialization::Ready, 0).unwrap().unwrap();
    assert_eq!(android.set(Parameter::Rate, level(2.0), 0), Ok(()));
    assert_eq!(number(android.get(Parameter::Rate).unwrap()), 2.0);
    assert_eq!(android.set(Parameter::Rate, level(3.0), -1), Err(Error::OperationFailed));
    assert_eq!(number(android.get(Parameter::Rate).unwrap()), 2.0);
    assert_eq!(android.set(Parameter::Pitch, level(0.5), 0), Ok(()));
    assert_eq!(number(android.get(Parameter::Pitch).unwrap()), 0.5);
    assert_eq!(android.set(Parameter::Volume, level(0.5), 0), Err(Error::UnsupportedFeature));
    assert_eq!(android.get(Parameter::Volume), Err(Error::UnsupportedFeature));
}

#[test]
fn features_and_bounds_of_android() {
    let f = features();
    assert!(f.stop && f.rate && f.pitch && f.is_speaking && f.utterance_callbacks);
    assert!(!f.volume && !f.voice && !f.get_voice);
    let rate = bounds(Parameter::Rate);
    assert_eq!((number(rate.min), number(rate.normal), number(rate.max)), (0.1, 1.0, 10.0));
    let pitch = bounds(Parameter::Pitch);
    assert_eq!((number(pitch.min), number(pitch.normal), number(pitch.max)), (0.1, 1.0, 2.0));
}
