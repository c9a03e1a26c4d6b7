use tts::platform::{default_backends, macos_backend, read_system_version, Platform};
use tts::{Backends, Tolk, Tts};

#[test]
fn each_platform_has_its_backend() {
    assert_eq!(default_backends(Platform::Linux, false, ""), vec![Backends::SpeechDispatcher]);
    assert_eq!(default_backends(Platform::Wasm, false, ""), vec![Backends::Web]);
    assert_eq!(default_backends(Platform::Android, false, ""), vec![Backends::Android]);
    assert_eq!(default_backends(Platform::AppleMobile, false, ""), vec![Backends::AvFoundation]);
    assert_eq!(default_backends(Platform::Windows, false, ""), vec![Backends::WinRt]);
    assert_eq!(default_backends(Platform::Linux, true, "Version 10.13.6"), vec![Backends::SpeechDispatcher]);
}

#[test]
fn on_windows_the_screen_reader_comes_first() {
    assert_eq!(
        default_backends(Platform::Windows, true, ""),
        vec![Backends::Tolk, Backends::WinRt]
    );
    assert_eq!(
        Tts::<Tolk>::default(Platform::Windows, true, ""),
        vec![Backends::Tolk, Backends::WinRt]
    );
}

#[test]
fn on_a_mac_the_version_decides() {
    let old = "Version 10.13.6 (Build 17G65)";
    let mojave = "Version 10.14 (Build 18A391)";
    let catalina = "Version 10.15.7 (Build 19H2)";
    let big_sur = "Version 11.2.3 (Build 20D91)";
    let sonoma = "Version 14.0 (Build 23A344)";
    assert_eq!(default_backends(Platform::MacOs, false, old), vec![Backends::AppKit]);
    assert_eq!(default_backends(Platform::MacOs, false, mojave), vec![Backends::AvFoundation]);
    assert_eq!(default_backends(Platform::MacOs, false, catalina), vec![Backends::AvFoundation]);
    assert_eq!(default_backends(Platform::MacOs, false, big_sur), vec![Backends::AvFoundation]);
    assert_eq!(default_backends(Platform::MacOs, false, sonoma), vec![Backends::AvFoundation]);
    assert_eq!(Tts::<Tolk>::default(Platform::MacOs, true, old), vec![Backends::AppKit]);
}

#[test]
fn versions_are_read_from_the_description() {
    assert_eq!(read_system_version("Version 10.15.7 (Build 19H2)"), Some((10, 15)));
    assert_eq!(read_system_version("Version 11.2"), Some((11, 2)));
    assert_eq!(read_system_version("x 1.2.3.4.5"), Some((1, 2)));
    assert_eq!(read_system_version("Version +10.-3"), Some((10, -3)));
    assert_eq!(read_system_version(" 12.0"), Some((12, 0)));
    assert_eq!(read_system_version("Version 127.127"), Some((127, 127)));
}

#[test]
fn a_description_that_cannot_be_read_gives_nothing() {
    for description in ["", "Version", "Version ", "Version  10.15", "Version 10", "Version 10.", "Version .5", "Version 10.x", "Version 128.0", "Version 10.15rc (x)", "10.15.7"] {
        assert_eq!(read_system_version(description), None, "{:?}", description);
        assert!(default_backends(Platform::MacOs, false, description).is_empty());
    }
}

#[test]
fn the_backend_of_a_mac_by_numbers() {
    assert_eq!(macos_backend(10, 13), Backends::AppKit);
    assert_eq!(macos_backend(10, 14), Backends::AvFoundation);
    assert_eq!(macos_backend(11, 0), Backends::AvFoundation);
    assert_eq!(macos_backend(10, 0), Backends::AppKit);
    assert_eq!(macos_backend(9, 20), Backends::AvFoundation);
    assert_eq!(macos_backend(-1, -1), Backends::AppKit);
}

#[test]
fn a_screen_reader_needs_windows_and_tolk() {
    assert!(Tts::<Tolk>::screen_reader_available(Platform::Windows, true, true));
    assert!(!Tts::<Tolk>::screen_reader_available(Platform::Windows, true, false));
    assert!(!Tts::<Tolk>::screen_reader_available(Platform::Windows, false, true));
    assert!(!Tts::<Tolk>::screen_reader_available(Platform::Linux, true, true));
    assert!(!Tts::<Tolk>::screen_reader_available(Platform::MacOs, true, true));
}
