//! The decisions of the backend of Speech Dispatcher.
//!
//! The daemon queues utterances itself, numbers them, and reports their
//! moments as signals that name the connection and the message. The backend
//! keeps track of which connections are speaking, and decides how a text is
//! to be said and which callback a signal is for.

use crate::backend::{Bounds, Parameter};
use crate::error::Error;
use crate::features::Features;
use crate::ids::{BackendId, UtteranceId};
use crate::level::Level;
use crate::utterance::{Moment, Notification};
use std::collections::HashMap;
use vstd::prelude::*;
use vstd::string::StringSliceAdditionalSpecFns;

verus! {

broadcast use vstd::std_specs::hash::group_hash_axioms;

/// The bit pattern of the number -100.
pub const MINUS_HUNDRED: u32 = 0xC2C8_0000;

/// The bit pattern of the number 0.
pub const ZERO: u32 = 0x0000_0000;

/// The bit pattern of the number 100.
pub const HUNDRED: u32 = 0x42C8_0000;

/// What the backend offers: everything but voices.
pub open spec fn spec_features() -> Features {
    Features {
        stop: true,
        rate: true,
        pitch: true,
        volume: true,
        is_speaking: true,
        utterance_callbacks: true,
        voice: false,
        get_voice: false,
    }
}

/// What the backend offers.
#[verifier::when_used_as_spec(spec_features)]
pub fn features() -> (features: Features)
    ensures
        features == spec_features(),
{
    Features {
        stop: true,
        rate: true,
        pitch: true,
        volume: true,
        is_speaking: true,
        utterance_callbacks: true,
        voice: false,
        get_voice: false,
    }
}

/// The bounds of the backend: every parameter runs from -100 to 100; rate
/// and pitch are usually 0, volume is usually 100.
pub open spec fn spec_bounds(parameter: Parameter) -> Bounds {
    Bounds {
        min: Level::spec_from_bits(MINUS_HUNDRED),
        normal: if parameter is Volume {
            Level::spec_from_bits(HUNDRED)
        } else {
            Level::spec_from_bits(ZERO)
        },
        max: Level::spec_from_bits(HUNDRED),
    }
}

/// The bounds of the backend.
#[verifier::when_used_as_spec(spec_bounds)]
pub fn bounds(parameter: Parameter) -> (bounds: Bounds)
    ensures
        bounds == spec_bounds(parameter),
{
    let normal = match parameter {
        Parameter::Volume => Level::from_bits(HUNDRED),
        _ => Level::from_bits(ZERO),
    };
    Bounds { min: Level::from_bits(MINUS_HUNDRED), normal, max: Level::from_bits(HUNDRED) }
}

/// The signals that the daemon sends of a message.
#[derive(Clone, Copy, Debug, PartialEq, Eq, Hash, Structural)]
pub enum Signal {
    Begin,
    End,
    Cancel,
    Pause,
    Resume,
}

impl Signal {
    /// Whether the connection speaks once the signal has arrived.
    pub open spec fn spec_speaks(self) -> bool {
        self is Begin || self is Resume
    }

    /// The moment to announce for the signal. A pause and a resumption are
    /// announced to no one.
    pub open spec fn spec_moment(self) -> Option<Moment> {
        match self {
            Signal::Begin => Some(Moment::Begin),
            Signal::End => Some(Moment::End),
            Signal::Cancel => Some(Moment::Stop),
            Signal::Pause | Signal::Resume => None,
        }
    }
}

/// How a text is to be said.
#[derive(Clone, Copy, Debug, PartialEq, Eq, Hash, Structural)]
pub struct SpeakPlan {
    /// Whether to cancel what the daemon holds before the text is said.
    pub cancel_first: bool,
    /// Whether to have every punctuation mark spoken while the text is
    /// said, and none again after.
    pub spell_punctuation: bool,
}

/// How `text` is to be said: what is pending is cancelled first where the
/// request interrupts, and a text of a single byte is said with its
/// punctuation spoken, so that a lone mark is not passed over in silence.
pub fn plan_speak(text: &str, interrupt: bool) -> (plan: SpeakPlan)
    ensures
        plan == (SpeakPlan {
            cancel_first: interrupt,
            spell_punctuation: text.spec_bytes().len() == 1,
        }),
{
    SpeakPlan { cancel_first: interrupt, spell_punctuation: text.as_bytes().len() == 1 }
}

/// What a request to speak comes to, where `message` is the number that
/// the daemon gave the text, if it took the text.
pub fn spoken(message: Option<u64>) -> (result: Result<Option<UtteranceId>, Error>)
    ensures
        result == (match message {
            Some(n) => Ok::<Option<UtteranceId>, Error>(Some(UtteranceId::SpeechDispatcher(n))),
            None => Err::<Option<UtteranceId>, Error>(Error::NoneError),
        }),
{
    match message {
        Some(n) => Ok(Some(UtteranceId::SpeechDispatcher(n))),
        None => Err(Error::NoneError),
    }
}

/// Which connections to the daemon are speaking, by the number that the
/// daemon gave the connection.
#[derive(Debug)]
pub struct Speaking {
    connections: HashMap<usize, bool>,
}

impl Speaking {
    /// Whether each open connection is speaking.
    pub closed spec fn view(&self) -> Map<usize, bool> {
        self.connections@
    }

    /// No connection is open.
    pub fn new() -> (speaking: Speaking)
        ensures
            speaking@ == Map::<usize, bool>::empty(),
    {
        Speaking { connections: HashMap::new() }
    }

    /// Takes note that connection `client` was opened. It is silent.
    pub fn open(&mut self, client: usize)
        ensures
            final(self)@ == old(self)@.insert(client, false),
    {
        let _ = self.connections.insert(client, false);
    }

    /// Takes note that connection `client` was closed.
    pub fn close(&mut self, client: usize)
        ensures
            final(self)@ == old(self)@.remove(client),
    {
        let _ = self.connections.remove(&client);
    }

    /// Whether connection `client` is speaking, where it is open.
    pub fn is_speaking(&self, client: usize) -> (speaking: Option<bool>)
        ensures
            speaking == (if self@.contains_key(client) {
                Some(self@[client])
            } else {
                None
            }),
    {
        match self.connections.get(&client) {
            Some(speaking) => Some(*speaking),
            None => None,
        }
    }

    /// Takes note of a signal of message `message` on connection `client`,
    /// and tells which session is to hear what.
    ///
    /// The connection speaks from the begin or the resumption of a message
    /// on, and is silent from its end, its cancellation or its pause on. The
    /// begin, the end and the cancellation are announced to the session of
    /// the connection.
    pub fn on_signal(&mut self, signal: Signal, message: u64, client: usize) -> (announce: Option<
        (BackendId, Notification),
    >)
        ensures
            final(self)@ == old(self)@.insert(client, signal.spec_speaks()),
            announce == (match signal.spec_moment() {
                Some(moment) => Some(
                    (
                        BackendId::SpeechDispatcher(client),
                        Notification { moment, utterance: UtteranceId::SpeechDispatcher(message) },
                    ),
                ),
                None => None,
            }),
    {
        let session = BackendId::SpeechDispatcher(client);
        let utterance = UtteranceId::SpeechDispatcher(message);
        let (speaks, moment) = match signal {
            Signal::Begin => (true, Some(Moment::Begin)),
            Signal::End => (false, Some(Moment::End)),
            Signal::Cancel => (false, Some(Moment::Stop)),
            Signal::Pause => (false, None),
            Signal::Resume => (true, None),
        };
        let _ = self.connections.insert(client, speaks);
        match moment {
            Some(moment) => Some((session, Notification { moment, utterance })),
            None => None,
        }
    }
}

} // verus!
