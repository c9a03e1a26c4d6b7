//! The decisions of the Android backend.
//!
//! The engine of Android queues utterances itself, answers every request
//! with a status, and reports the moments of an utterance through a bridge
//! object on the Java side. What the backend decides is how to ask, what a
//! status means, how long to wait for the engine to come up, and which
//! callback an event of the bridge is for.

use crate::backend::{Bounds, Parameter};
use crate::decimal::{parse_u64, spec_parse_u64};
use crate::error::Error;
use crate::features::Features;
use crate::ids::{BackendId, Backends, IdAllocator, UtteranceId};
use crate::level::Level;
use crate::utterance::{Moment, Notification};
use std::collections::HashSet;
use vstd::prelude::*;
use vstd::string::StringSliceAdditionalSpecFns;

verus! {

broadcast use vstd::std_specs::hash::group_hash_axioms;

/// The bit pattern of the number 0.1.
pub const TENTH: u32 = 0x3DCC_CCCD;

/// The bit pattern of the number 1.
pub const ONE: u32 = 0x3F80_0000;

/// The bit pattern of the number 2.
pub const TWO: u32 = 0x4000_0000;

/// The bit pattern of the number 10.
pub const TEN: u32 = 0x4120_0000;

/// How long, in milliseconds, the engine is given to come up.
pub const MAX_WAIT_MILLIS: u64 = 500;

/// How long, in milliseconds, to sleep between two looks at the engine.
pub const POLL_MILLIS: u64 = 5;

/// The queue mode that has the engine drop what it holds.
pub const QUEUE_FLUSH: i32 = 0;

/// The queue mode that has the engine append to what it holds.
pub const QUEUE_ADD: i32 = 1;

/// What the backend offers: everything but volume and voices.
pub open spec fn spec_features() -> Features {
    Features {
        stop: true,
        rate: true,
        pitch: true,
        volume: false,
        is_speaking: true,
        utterance_callbacks: true,
        voice: false,
        get_voice: false,
    }
}

/// What the backend offers.
#[verifier::when_used_as_spec(spec_features)]
pub fn features() -> (features: Features)
    ensures
        features == spec_features(),
{
    Features {
        stop: true,
        rate: true,
        pitch: true,
        volume: false,
        is_speaking: true,
        utterance_callbacks: true,
        voice: false,
        get_voice: false,
    }
}

/// The bounds of the backend: rates from 0.1 to 10 and pitches from 0.1 to
/// 2, each with 1 as the usual value.
pub open spec fn spec_bounds(parameter: Parameter) -> Bounds {
    match parameter {
        Parameter::Rate => Bounds {
            min: Level::spec_from_bits(TENTH),
            normal: Level::spec_from_bits(ONE),
            max: Level::spec_from_bits(TEN),
        },
        _ => Bounds {
            min: Level::spec_from_bits(TENTH),
            normal: Level::spec_from_bits(ONE),
            max: Level::spec_from_bits(TWO),
        },
    }
}

/// The bounds of the backend.
#[verifier::when_used_as_spec(spec_bounds)]
pub fn bounds(parameter: Parameter) -> (bounds: Bounds)
    ensures
        bounds == spec_bounds(parameter),
{
    match parameter {
        Parameter::Rate => Bounds {
            min: Level::from_bits(TENTH),
            normal: Level::from_bits(ONE),
            max: Level::from_bits(TEN),
        },
        _ => Bounds {
            min: Level::from_bits(TENTH),
            normal: Level::from_bits(ONE),
            max: Level::from_bits(TWO),
        },
    }
}

/// The sessions whose engine was asked for and has not reported yet.
#[derive(Debug)]
pub struct PendingInitializations {
    waiting: HashSet<u64>,
}

impl View for PendingInitializations {
    type V = Set<u64>;

    closed spec fn view(&self) -> Set<u64> {
        self.waiting@
    }
}

impl PendingInitializations {
    /// No session is waiting.
    pub fn new() -> (pending: PendingInitializations)
        ensures
            pending@ == Set::<u64>::empty(),
    {
        PendingInitializations { waiting: HashSet::new() }
    }

    /// Takes note that the engine of session `number` was asked for.
    pub fn insert(&mut self, number: u64)
        ensures
            final(self)@ == old(self)@.insert(number),
    {
        let _ = self.waiting.insert(number);
    }

    /// Takes note that the engine of session `number` has reported, with
    /// whatever status.
    pub fn remove(&mut self, number: u64)
        ensures
            final(self)@ == old(self)@.remove(number),
    {
        let _ = self.waiting.remove(&number);
    }

    /// Whether session `number` is still waiting for its engine.
    pub fn contains(&self, number: u64) -> (waiting: bool)
        ensures
            waiting == self@.contains(number),
    {
        self.waiting.contains(&number)
    }
}

/// What to do next while a session waits for its engine.
#[derive(Clone, Copy, Debug, PartialEq, Eq, Hash, Structural)]
pub enum Initialization {
    /// The engine has reported: the session is made.
    Ready,
    /// The engine has not reported yet: sleep for `POLL_MILLIS` and look
    /// again.
    Wait,
    /// The engine has not reported in time: the session is given up.
    TimedOut,
}

/// What a look at the engine comes to, `elapsed` milliseconds after the
/// engine was asked for: ready as soon as the engine has reported, however
/// late; given up once more than `MAX_WAIT_MILLIS` have passed without a
/// report.
pub open spec fn spec_poll_initialization(waiting: bool, elapsed: u64) -> Initialization {
    if !waiting {
        Initialization::Ready
    } else if elapsed > MAX_WAIT_MILLIS {
        Initialization::TimedOut
    } else {
        Initialization::Wait
    }
}

/// Looks whether the engine of session `number` has come up.
pub fn poll_initialization(pending: &PendingInitializations, number: u64, elapsed: u64) -> (step:
    Initialization)
    ensures
        step == spec_poll_initialization(pending@.contains(number), elapsed),
{
    if !pending.contains(number) {
        Initialization::Ready
    } else if elapsed > MAX_WAIT_MILLIS {
        Initialization::TimedOut
    } else {
        Initialization::Wait
    }
}

/// The events that the bridge reports of an utterance.
#[derive(Clone, Copy, Debug, PartialEq, Eq, Hash, Structural)]
pub enum BridgeEvent {
    /// The engine has begun to speak the utterance.
    Start,
    /// The utterance was stopped while it was spoken, or dropped from the
    /// engine's queue.
    Stop,
    /// The engine has spoken the utterance to its end.
    Done,
    /// The engine failed on the utterance.
    Error,
}

impl BridgeEvent {
    /// The moment that the event stands for. An utterance on which the
    /// engine fails is over, so for the callbacks it has ended.
    pub open spec fn spec_moment(self) -> Moment {
        match self {
            BridgeEvent::Start => Moment::Begin,
            BridgeEvent::Stop => Moment::Stop,
            BridgeEvent::Done => Moment::End,
            BridgeEvent::Error => Moment::End,
        }
    }

    /// The moment that the event stands for.
    #[verifier::when_used_as_spec(spec_moment)]
    pub fn moment(self) -> (moment: Moment)
        ensures
            moment == self.spec_moment(),
    {
        match self {
            BridgeEvent::Start => Moment::Begin,
            BridgeEvent::Stop => Moment::Stop,
            BridgeEvent::Done => Moment::End,
            BridgeEvent::Error => Moment::End,
        }
    }
}

/// The number of the session that a bridge belongs to, as its field of 32
/// bits gives it: the field itself, and for a negative field the number that
/// has the same bits when it is widened with its sign.
pub open spec fn spec_session_number(field: i32) -> u64 {
    if field >= 0 {
        field as u64
    } else {
        (field + 0x1_0000_0000_0000_0000) as u64
    }
}

/// The number of the session that a bridge belongs to.
#[verifier::when_used_as_spec(spec_session_number)]
pub fn session_number(field: i32) -> (number: u64)
    ensures
        number == spec_session_number(field),
{
    if field >= 0 {
        field as u64
    } else {
        let below: i64 = -(field as i64) - 1;
        u64::MAX - (below as u64)
    }
}

/// The session and the notification that an event of a bridge is for.
///
/// The bridge names its session by the number in its field, and the
/// utterance by the decimal number that the utterance was submitted under.
/// An event whose utterance is no such number belongs to nothing that this
/// library has submitted, and is dropped.
pub fn notification(event: BridgeEvent, field: i32, utterance: &str) -> (found: Option<
    (BackendId, Notification),
>)
    ensures
        found == (match spec_parse_u64(utterance.spec_bytes()) {
            Some(n) => Some(
                (
                    BackendId::Android(spec_session_number(field)),
                    Notification { moment: event.spec_moment(), utterance: UtteranceId::Android(n) },
                ),
            ),
            None => None,
        }),
{
    match parse_u64(utterance.as_bytes()) {
        Some(n) => Some(
            (
                BackendId::Android(session_number(field)),
                Notification { moment: event.moment(), utterance: UtteranceId::Android(n) },
            ),
        ),
        None => None,
    }
}

/// The queue mode to submit an utterance with.
pub fn queue_mode(interrupt: bool) -> (mode: i32)
    ensures
        mode == (if interrupt {
            QUEUE_FLUSH
        } else {
            QUEUE_ADD
        }),
{
    if interrupt {
        QUEUE_FLUSH
    } else {
        QUEUE_ADD
    }
}

/// What a status of the engine means: zero is success, and everything else
/// is a request that the engine has refused.
pub fn accepted(status: i32) -> (result: Result<(), Error>)
    ensures
        result == (if status == 0 {
            Ok::<(), Error>(())
        } else {
            Err::<(), Error>(Error::OperationFailed)
        }),
{
    if status == 0 {
        Ok(())
    } else {
        Err(Error::OperationFailed)
    }
}

/// One session of the backend.
#[derive(Debug)]
pub struct Android {
    pub id: BackendId,
    pub rate: Level,
    pub pitch: Level,
}

impl Android {
    /// Begins to make a session: the session takes the next number of `ids`
    /// and waits in `pending` for its engine. The number is handed back; the
    /// engine is to be asked for under it.
    pub fn begin(ids: &mut IdAllocator, pending: &mut PendingInitializations) -> (number: u64)
        requires
            !old(ids).spec_is_exhausted(),
        ensures
            number == old(ids).spec_issued(),
            final(ids).spec_issued() == old(ids).spec_issued() + 1,
            final(pending)@ == old(pending)@.insert(number),
    {
        let number: u64 = ids.issued();
        let _ = ids.next_backend_id(Backends::Android);
        pending.insert(number);
        number
    }

    /// Ends the making of session `number` after a look at its engine: the
    /// session, with rate and pitch at 1, once the engine has reported;
    /// `InitializationTimeout` once the engine has failed to report in time;
    /// nothing while there is still time to wait.
    pub fn new(step: Initialization, number: u64) -> (session: Option<Result<Android, Error>>)
        ensures
            session == (match step {
                Initialization::Ready => Some(
                    Ok::<Android, Error>(
                        Android {
                            id: BackendId::Android(number),
                            rate: Level::spec_from_bits(ONE),
                            pitch: Level::spec_from_bits(ONE),
                        },
                    ),
                ),
                Initialization::TimedOut => Some(
                    Err::<Android, Error>(Error::InitializationTimeout),
                ),
                Initialization::Wait => None,
            }),
    {
        match step {
            Initialization::Ready => Some(
                Ok(
                    Android {
                        id: BackendId::Android(number),
                        rate: Level::from_bits(ONE),
                        pitch: Level::from_bits(ONE),
                    },
                ),
            ),
            Initialization::TimedOut => Some(Err(Error::InitializationTimeout)),
            Initialization::Wait => None,
        }
    }

    /// What a request to speak comes to, where the utterance was submitted
    /// as `utterance` and the engine answered with `status`.
    pub fn spoken(utterance: UtteranceId, status: i32) -> (result: Result<
        Option<UtteranceId>,
        Error,
    >)
        ensures
            result == (if status == 0 {
                Ok::<Option<UtteranceId>, Error>(Some(utterance))
            } else {
                Err::<Option<UtteranceId>, Error>(Error::OperationFailed)
            }),
    {
        if status == 0 {
            Ok(Some(utterance))
        } else {
            Err(Error::OperationFailed)
        }
    }

    /// Takes note of the engine's answer to a new value of `parameter`:
    /// the value is in force where the engine has taken it, and nothing
    /// changes where it has refused. The backend has no volume.
    pub fn set(&mut self, parameter: Parameter, value: Level, status: i32) -> (result: Result<
        (),
        Error,
    >)
        ensures
            result == (if parameter is Volume {
                Err::<(), Error>(Error::UnsupportedFeature)
            } else if status == 0 {
                Ok::<(), Error>(())
            } else {
                Err::<(), Error>(Error::OperationFailed)
            }),
            *final(self) == (if result is Ok {
                match parameter {
                    Parameter::Rate => Android { rate: value, ..*old(self) },
                    _ => Android { pitch: value, ..*old(self) },
                }
            } else {
                *old(self)
            }),
    {
        match parameter {
            Parameter::Volume => Err(Error::UnsupportedFeature),
            Parameter::Rate => {
                if status == 0 {
                    self.rate = value;
                    Ok(())
                } else {
                    Err(Error::OperationFailed)
                }
            },
            Parameter::Pitch => {
                if status == 0 {
                    self.pitch = value;
                    Ok(())
                } else {
                    Err(Error::OperationFailed)
                }
            },
        }
    }

    /// The value of `parameter` that the engine has last taken.
    pub fn get(&self, parameter: Parameter) -> (result: Result<Level, Error>)
        ensures
            result == (match parameter {
                Parameter::Rate => Ok::<Level, Error>(self.rate),
                Parameter::Pitch => Ok::<Level, Error>(self.pitch),
                Parameter::Volume => Err::<Level, Error>(Error::UnsupportedFeature),
            }),
    {
        match parameter {
            Parameter::Rate => Ok(self.rate),
            Parameter::Pitch => Ok(self.pitch),
            Parameter::Volume => Err(Error::UnsupportedFeature),
        }
    }
}

} // verus!
