use tts::{Error, Features, Gender, Voice};

#[test]
fn a_voice_has_a_well_formed_language() {
    let voice = Voice::new("id".to_string(), "Name".to_string(), Some(Gender::Male), "zh-cmn-Hans-CN".to_string()).unwrap();
    assert_eq!(voice.id(), "id");
    assert_eq!(voice.name(), "Name");
    assert_eq!(voice.gender(), Some(Gender::Male));
    assert_eq!(voice.language(), "zh-cmn-Hans-CN");
    for language in ["en", "en-US", "EN-us", "de-CH-1901", "x-private", "i-klingon", "sr-Latn-RS"] {
        assert!(Voice::new("id".to_string(), "n".to_string(), None, language.to_string()).is_some(), "{}", language);
    }
}

#[test]
fn a_language_that_is_no_tag_makes_no_voice() {
    for language in ["", "e", "en_US", "en-", "-en", "english language", "en-US-", "toolongsubtag1", "en--US"] {
        assert!(Voice::new("id".to_string(), "n".to_string(), None, language.to_string()).is_none(), "{:?}", language);
    }
}

#[test]
fn a_language_identifier_is_written_in_its_regular_form() {
    let voice = Voice::with_language_identifier("id".to_string(), "n".to_string(), None, "en_us").unwrap();
    assert_eq!(voice.language(), "en-US");
    let voice = Voice::with_language_identifier("id".to_string(), "n".to_string(), None, "SR-latn-rs").unwrap();
    assert_eq!(voice.language(), "sr-Latn-RS");
    let voice = Voice::with_language_identifier("id".to_string(), "n".to_string(), Some(Gender::Female), "de").unwrap();
    assert_eq!(voice.language(), "de");
    assert_eq!(voice.gender(), Some(Gender::Female));
    assert!(Voice::with_language_identifier("id".to_string(), "n".to_string(), None, "").is_none());
    assert!(Voice::with_language_identifier("id".to_string(), "n".to_string(), None, "e").is_none());
    assert!(Voice::with_language_identifier("id".to_string(), "n".to_string(), None, "en-US-x-y-z z").is_none());
}

#[test]
fn voices_are_compared_by_what_they_hold() {
    let a = Voice::new("a".to_string(), "A".to_string(), Some(Gender::Male), "en".to_string()).unwrap();
    let same = Voice::new("a".to_string(), "A".to_string(), Some(Gender::Male), "en".to_string()).unwrap();
    let other_name = Voice::new("a".to_string(), "B".to_string(), Some(Gender::Male), "en".to_string()).unwrap();
    let other_gender = Voice::new("a".to_string(), "A".to_string(), None, "en".to_string()).unwrap();
    let other_language = Voice::new("a".to_string(), "A".to_string(), Some(Gender::Male), "fr".to_string()).unwrap();
    let other_id = Voice::new("b".to_string(), "A".to_string(), Some(Gender::Male), "en".to_string()).unwrap();
    assert!(a.same_as(&same));
    assert!(a.same_as(&a.clone()));
    assert!(!a.same_as(&other_name));
    assert!(!a.same_as(&other_gender));
    assert!(!a.same_as(&other_language));
    assert!(!a.same_as(&other_id));
    assert!(a.has_id_of(&other_name));
    assert!(!a.has_id_of(&other_id));
}

#[test]
fn a_new_descriptor_offers_nothing() {
    let f = Features::new();
    assert!(!f.is_speaking && !f.pitch && !f.rate && !f.stop);
    assert!(!f.utterance_callbacks && !f.voice && !f.get_voice && !f.volume);
    assert_eq!(f, Features::default());
    assert!(!f.adjusts(tts::Parameter::Rate));
    let mut g = f;
    g.pitch = true;
    assert!(g.adjusts(tts::Parameter::Pitch));
    assert!(!g.adjusts(tts::Parameter::Volume));
}

#[test]
fn every_error_has_its_message() {
    assert_eq!(Error::UnsupportedFeature.message(), "Unsupported feature");
    assert_eq!(Error::OutOfRange.message(), "Out of range");
    assert_eq!(Error::OperationFailed.message(), "Operation failed");
    assert_eq!(Error::InitializationTimeout.message(), "Initialization timed out");
    assert_eq!(Error::NoneError.message(), "Value not received");
    assert_eq!(Error::Io.message(), "IO error");
    assert_eq!(Error::JavaScriptError.message(), "JavaScript error");
    assert_eq!(Error::SpeechDispatcher.message(), "Speech Dispatcher error");
    assert_eq!(Error::WinRt.message(), "WinRT error");
    assert_eq!(Error::UtfStringConversionFailed.message(), "UTF string conversion failed");
    assert_eq!(Error::JNI.message(), "JNI error");
}

#[test]
fn a_checked_voice_is_made_exactly_when_its_language_was_found_well_formed() {
    let made = Voice::checked("id".to_string(), "Name".to_string(), Some(Gender::Female), "pt-BR".to_string(), true).unwrap();
    assert_eq!(made.id(), "id");
    assert_eq!(made.name(), "Name");
    assert_eq!(made.gender(), Some(Gender::Female));
    assert_eq!(made.language(), "pt-BR");
    assert!(Voice::checked("id".to_string(), "Name".to_string(), None, "pt_BR".to_string(), false).is_none());
}
