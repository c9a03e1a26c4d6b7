[package]
name = "tts"
version = "0.26.3"
edition = "2021"
publish = false

[dependencies]
cocoa-foundation = "0.2"
core-foundation = "0.10"
dyn-clonable = "0.9"
jni = "0.19"
lazy_static = "1"
libc = "0.2"
log = "0.4"
ndk-glue = "0.7"
objc = "0.2"
objc2 = "0.6"
objc2-app-kit = { version = "0.3", default-features = false, features = ["std", "NSSpeechSynthesizer"] }
objc2-avf-audio = { version = "0.3", default-features = false, features = ["std", "AVSpeechSynthesis"] }
objc2-foundation = "0.3"
oxilangtag = "=0.1.6"
serde = { version = "1", features = ["derive"] }
speech-dispatcher = { version = "*", default-features = false }
thiserror = "1"
tolk = "*"
unic-langid = "=0.9.6"
wasm-bindgen = "0.2"
web-sys = { version = "0.3", features = ["EventTarget", "SpeechSynthesis", "SpeechSynthesisErrorCode", "SpeechSynthesisErrorEvent", "SpeechSynthesisEvent", "SpeechSynthesisUtterance", "SpeechSynthesisVoice", "Window"] }
windows = { version = "0.58", features = ["Foundation", "Foundation_Collections", "Media_Core", "Media_Playback", "Media_SpeechSynthesis", "Storage_Streams"] }
