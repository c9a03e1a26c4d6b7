//! The decision core of a text-to-speech facade.
//!
//! Native speech engines differ in what they can do, in whether they queue
//! utterances themselves, and in how they report that an utterance has
//! finished. This crate holds everything about such a facade that can be
//! decided without touching an engine: which operations a backend offers,
//! which values a setter accepts, how pending utterances are queued and in
//! which order their callbacks are due, and how an event of an engine finds
//! its way back to the session and the utterance that it belongs to.
//!
//! Nothing in here speaks, sleeps or locks. For an engine that plays one
//! utterance at a time, a session is a state machine ([`WinRt`], [`AppKit`],
//! [`Tolk`]): every operation that would reach the engine leaves an
//! [`Effect`] behind instead, and the layer that owns the engine carries the
//! effects out in the order in which they were recorded and reports back
//! what the engine did. For an engine that queues by itself, the crate holds
//! the decisions around each call ([`android`], [`av_foundation`],
//! [`speech_dispatcher`], [`web`]).
//!
//! The facade, [`Tts`], is the same for all of them. It is where an
//! operation that the backend does not offer and a value that the backend
//! does not take are turned away, before the backend hears of them.
//!
//! What holds of whole runs of a session, whatever is submitted and
//! whenever the engine finishes, is stated and proved in [`order`].

pub mod android;
pub mod appkit;
pub mod av_foundation;
pub mod backend;
pub mod callbacks;
pub mod decimal;
pub mod error;
pub mod features;
pub mod ids;
pub mod index;
pub mod level;
pub mod order;
pub mod platform;
pub mod queue;
pub mod session_map;
pub mod speech_dispatcher;
pub mod tolk;
pub mod tts;
pub mod utterance;
pub mod voice;
pub mod web;
pub mod winrt;

pub use appkit::{AppKit, Delegate, Speech};
pub use backend::{Backend, Bounds, Parameter};
pub use callbacks::{CallbackRegistry, Callbacks};
pub use error::Error;
pub use features::Features;
pub use ids::{BackendId, Backends, IdAllocator, UtteranceId};
pub use index::HandleIndex;
pub use level::Level;
pub use platform::Platform;
pub use queue::UtteranceQueue;
pub use tolk::Tolk;
pub use tts::Tts;
pub use utterance::{Effect, Moment, Notification, Utterance};
pub use voice::{Gender, Voice};
pub use winrt::WinRt;
