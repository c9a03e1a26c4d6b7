use tts::{BackendId, Backends, IdAllocator, UtteranceId};

#[test]
fn a_counter_starts_at_zero_and_counts_up() {
    let mut ids = IdAllocator::new();
    assert_eq!(ids.issued(), 0);
    assert!(!ids.is_exhausted());
    assert_eq!(ids.next_backend_id(Backends::WinRt), Some(BackendId::WinRt(0)));
    assert_eq!(ids.next_backend_id(Backends::WinRt), Some(BackendId::WinRt(1)));
    assert_eq!(ids.next_backend_id(Backends::Web), Some(BackendId::Web(2)));
    assert_eq!(ids.next_backend_id(Backends::Android), Some(BackendId::Android(3)));
    assert_eq!(ids.next_backend_id(Backends::AvFoundation), Some(BackendId::AvFoundation(4)));
    assert_eq!(ids.issued(), 5);
}

#[test]
fn backends_without_numbered_sessions_get_no_identifier() {
    let mut ids = IdAllocator::new();
    assert_eq!(ids.next_backend_id(Backends::AppKit), None);
    assert_eq!(ids.next_backend_id(Backends::Tolk), None);
    assert_eq!(ids.next_backend_id(Backends::SpeechDispatcher), None);
    assert_eq!(ids.issued(), 0);
    assert_eq!(ids.next_backend_id(Backends::WinRt), Some(BackendId::WinRt(0)));
}

#[test]
fn utterances_take_the_backend_of_their_session() {
    let mut ids = IdAllocator::new();
    assert_eq!(ids.next_utterance_id(BackendId::WinRt(9)), Some(UtteranceId::WinRt(0)));
    assert_eq!(ids.next_utterance_id(BackendId::Web(9)), Some(UtteranceId::Web(1)));
    assert_eq!(ids.next_utterance_id(BackendId::Android(9)), Some(UtteranceId::Android(2)));
    assert_eq!(ids.next_utterance_id(BackendId::AvFoundation(9)), None);
    assert_eq!(ids.next_utterance_id(BackendId::SpeechDispatcher(9)), None);
    assert_eq!(ids.issued(), 3);
}

#[test]
fn identifiers_are_never_given_twice() {
    let mut ids = IdAllocator::new();
    let mut seen = Vec::new();
    for _ in 0..100 {
        let id = ids.next_utterance_id(BackendId::WinRt(0)).unwrap();
        assert!(!seen.contains(&id));
        seen.push(id);
    }
    assert_eq!(seen[99], UtteranceId::WinRt(99));
}

#[test]
fn kinds_of_identifiers() {
    assert_eq!(BackendId::Android(1).kind(), Backends::Android);
    assert_eq!(BackendId::AvFoundation(1).kind(), Backends::AvFoundation);
    assert_eq!(BackendId::SpeechDispatcher(1).kind(), Backends::SpeechDispatcher);
    assert_eq!(BackendId::Web(1).kind(), Backends::Web);
    assert_eq!(BackendId::WinRt(1).kind(), Backends::WinRt);
    assert_eq!(UtteranceId::Android(1).kind(), Backends::Android);
    assert_eq!(UtteranceId::AvFoundation(1).kind(), Backends::AvFoundation);
    assert_eq!(UtteranceId::SpeechDispatcher(1).kind(), Backends::SpeechDispatcher);
    assert_eq!(UtteranceId::Web(1).kind(), Backends::Web);
    assert_eq!(UtteranceId::WinRt(1).kind(), Backends::WinRt);
}

#[test]
fn names_of_backends() {
    assert_eq!(Backends::Android.to_string(), "Android\n");
    assert_eq!(Backends::AppKit.to_string(), "AppKit\n");
    assert_eq!(Backends::AvFoundation.to_string(), "AVFoundation\n");
    assert_eq!(Backends::SpeechDispatcher.to_string(), "Speech Dispatcher\n");
    assert_eq!(Backends::Tolk.to_string(), "Tolk\n");
    assert_eq!(Backends::Web.to_string(), "Web\n");
    assert_eq!(Backends::WinRt.to_string(), "Windows Runtime\n");
}

#[test]
fn texts_of_session_identifiers() {
    assert_eq!(BackendId::Android(0).to_string(), "Android(0)\n");
    assert_eq!(BackendId::AvFoundation(7).to_string(), "AvFoundation(7)\n");
    assert_eq!(BackendId::SpeechDispatcher(12).to_string(), "SpeechDispatcher(12)\n");
    assert_eq!(BackendId::Web(345).to_string(), "Web(345)\n");
    assert_eq!(BackendId::WinRt(42).to_string(), "WinRT(42)\n");
    assert_eq!(BackendId::WinRt(u64::MAX).to_string(), "WinRT(18446744073709551615)\n");
}

#[test]
fn texts_of_utterance_identifiers() {
    assert_eq!(UtteranceId::Android(10).to_string(), "Android(10)\n");
    assert_eq!(UtteranceId::AvFoundation(4096).to_string(), "AvFoundation(4096)\n");
    assert_eq!(UtteranceId::SpeechDispatcher(100).to_string(), "SpeechDispatcher(100)\n");
    assert_eq!(UtteranceId::Web(9).to_string(), "Web(9)\n");
    assert_eq!(UtteranceId::WinRt(0).to_string(), "WinRt(0)\n");
    assert_eq!(UtteranceId::WinRt(1000000007).to_string(), "WinRt(1000000007)\n");
}

#[test]
fn identifiers_are_ordered_by_backend_and_number() {
    assert!(BackendId::Web(1) < BackendId::Web(2));
    assert!(BackendId::Android(9) < BackendId::Web(0));
    assert!(UtteranceId::WinRt(3) > UtteranceId::WinRt(2));
    assert!(Backends::Android < Backends::WinRt);
}
