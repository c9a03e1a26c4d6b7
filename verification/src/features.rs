//! What a backend can do.

use vstd::prelude::*;

verus! {

/// The optional operations of a backend, one flag each.
///
/// A backend reports its flags once; they never change while it lives. The
/// facade consults the flag of an operation before it lets the operation
/// through to the backend.
#[derive(Clone, Copy, Debug, PartialEq, Eq, Structural, Hash)]
pub struct Features {
    pub is_speaking: bool,
    pub pitch: bool,
    pub rate: bool,
    pub stop: bool,
    pub utterance_callbacks: bool,
    pub voice: bool,
    pub get_voice: bool,
    pub volume: bool,
}

impl Features {
    /// The descriptor of a backend that offers none of the optional
    /// operations.
    pub open spec fn none() -> Features {
        Features {
            is_speaking: false,
            pitch: false,
            rate: false,
            stop: false,
            utterance_callbacks: false,
            voice: false,
            get_voice: false,
            volume: false,
        }
    }

    /// A descriptor with every flag cleared.
    pub fn new() -> (features: Features)
        ensures
            features == Features::none(),
    {
        Features {
            is_speaking: false,
            pitch: false,
            rate: false,
            stop: false,
            utterance_callbacks: false,
            voice: false,
            get_voice: false,
            volume: false,
        }
    }
}

impl Default for Features {
    fn default() -> (features: Features)
        ensures
            features == Features::none(),
    {
        Features::new()
    }
}

} // verus!
