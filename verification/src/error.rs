//! The ways in which an operation of the facade fails.

use vstd::prelude::*;

verus! {

/// Why an operation failed.
///
/// The first group is decided in this library. The second names the engine
/// whose own error stopped the operation; the layer that talks to the engine
/// keeps the engine's error itself.
#[derive(Clone, Copy, Debug, PartialEq, Eq, Structural, Hash)]
pub enum Error {
    /// The backend does not offer the operation.
    UnsupportedFeature,
    /// The value lies outside the bounds that the backend reports.
    OutOfRange,
    /// The engine refused a request that was in order.
    OperationFailed,
    /// The engine did not report ready within the time allowed for it.
    InitializationTimeout,
    /// Something that had to be there was not.
    NoneError,
    /// Reading or writing failed.
    Io,
    /// The script engine of the browser raised an exception.
    JavaScriptError,
    /// Speech Dispatcher reported an error.
    SpeechDispatcher,
    /// The Windows Runtime reported an error.
    WinRt,
    /// A string of the Windows Runtime was no valid UTF-16.
    UtfStringConversionFailed,
    /// The Java side reported an error.
    JNI,
}

impl Error {
    /// The text that describes the failure.
    pub open spec fn spec_message(self) -> Seq<char> {
        match self {
            Error::UnsupportedFeature => "Unsupported feature"@,
            Error::OutOfRange => "Out of range"@,
            Error::OperationFailed => "Operation failed"@,
            Error::InitializationTimeout => "Initialization timed out"@,
            Error::NoneError => "Value not received"@,
            Error::Io => "IO error"@,
            Error::JavaScriptError => "JavaScript error"@,
            Error::SpeechDispatcher => "Speech Dispatcher error"@,
            Error::WinRt => "WinRT error"@,
            Error::UtfStringConversionFailed => "UTF string conversion failed"@,
            Error::JNI => "JNI error"@,
        }
    }

    /// The text that describes the failure.
    pub fn message(self) -> (text: &'static str)
        ensures
            text@ == self.spec_message(),
    {
        match self {
            Error::UnsupportedFeature => "Unsupported feature",
            Error::OutOfRange => "Out of range",
            Error::OperationFailed => "Operation failed",
            Error::InitializationTimeout => "Initialization timed out",
            Error::NoneError => "Value not received",
            Error::Io => "IO error",
            Error::JavaScriptError => "JavaScript error",
            Error::SpeechDispatcher => "Speech Dispatcher error",
            Error::WinRt => "WinRT error",
            Error::UtfStringConversionFailed => "UTF string conversion failed",
            Error::JNI => "JNI error",
        }
    }
}

} // verus!
