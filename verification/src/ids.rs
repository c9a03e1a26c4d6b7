//! Names of backends, of their sessions and of their utterances, and the
//! counters that hand the numbered ones out.

use crate::decimal::{decimal_text, render_u64};
use vstd::prelude::*;
use vstd::string::StringExecFns;

verus! {

/// The engines that a facade can be bound to.
#[derive(Clone, Copy, Debug, Eq, Hash, PartialEq, PartialOrd, Ord, Structural)]
pub enum Backends {
    Android,
    AppKit,
    AvFoundation,
    SpeechDispatcher,
    Tolk,
    Web,
    WinRt,
}

/// The identity of one live session of a backend.
///
/// Sessions of AppKit and of Tolk have no identity, so there is no variant for
/// them. A session of Speech Dispatcher is known by the number that the
/// daemon gave the connection.
#[derive(Clone, Copy, Debug, Eq, Hash, PartialEq, PartialOrd, Ord, Structural)]
pub enum BackendId {
    Android(u64),
    AvFoundation(u64),
    SpeechDispatcher(usize),
    Web(u64),
    WinRt(u64),
}

/// The identity of one accepted request to speak.
///
/// It carries nothing but the identity: it is the token by which a later
/// event is matched to the request. An utterance of AVFoundation is known by
/// the address of the engine's own record, one of Speech Dispatcher by the
/// daemon's message number.
#[derive(Clone, Copy, Debug, Eq, Hash, PartialEq, PartialOrd, Ord, Structural)]
pub enum UtteranceId {
    Android(u64),
    AvFoundation(usize),
    SpeechDispatcher(u64),
    Web(u64),
    WinRt(u64),
}

impl Backends {
    /// The name of the backend, on a line of its own.
    pub open spec fn spec_to_string(self) -> Seq<char> {
        match self {
            Backends::Android => "Android\n"@,
            Backends::AppKit => "AppKit\n"@,
            Backends::AvFoundation => "AVFoundation\n"@,
            Backends::SpeechDispatcher => "Speech Dispatcher\n"@,
            Backends::Tolk => "Tolk\n"@,
            Backends::Web => "Web\n"@,
            Backends::WinRt => "Windows Runtime\n"@,
        }
    }

    /// The name of the backend, on a line of its own.
    pub fn to_string(&self) -> (text: String)
        ensures
            text@ == self.spec_to_string(),
    {
        match self {
            Backends::Android => String::from_str("Android\n"),
            Backends::AppKit => String::from_str("AppKit\n"),
            Backends::AvFoundation => String::from_str("AVFoundation\n"),
            Backends::SpeechDispatcher => String::from_str("Speech Dispatcher\n"),
            Backends::Tolk => String::from_str("Tolk\n"),
            Backends::Web => String::from_str("Web\n"),
            Backends::WinRt => String::from_str("Windows Runtime\n"),
        }
    }

    /// Whether sessions of this backend are numbered by the library (and not
    /// by the engine, or not at all).
    pub open spec fn numbers_sessions(self) -> bool {
        self is Android || self is AvFoundation || self is Web || self is WinRt
    }

    /// Whether utterances of this backend are numbered by the library.
    pub open spec fn numbers_utterances(self) -> bool {
        self is Android || self is Web || self is WinRt
    }
}

impl BackendId {
    /// The backend that the session belongs to.
    pub open spec fn spec_kind(self) -> Backends {
        match self {
            BackendId::Android(_) => Backends::Android,
            BackendId::AvFoundation(_) => Backends::AvFoundation,
            BackendId::SpeechDispatcher(_) => Backends::SpeechDispatcher,
            BackendId::Web(_) => Backends::Web,
            BackendId::WinRt(_) => Backends::WinRt,
        }
    }

    /// The number of the session among those of its backend.
    pub open spec fn spec_number(self) -> int {
        match self {
            BackendId::Android(n) => n as int,
            BackendId::AvFoundation(n) => n as int,
            BackendId::SpeechDispatcher(n) => n as int,
            BackendId::Web(n) => n as int,
            BackendId::WinRt(n) => n as int,
        }
    }

    /// The word that opens the text of the identity.
    pub open spec fn spec_label(self) -> Seq<char> {
        match self {
            BackendId::Android(_) => "Android("@,
            BackendId::AvFoundation(_) => "AvFoundation("@,
            BackendId::SpeechDispatcher(_) => "SpeechDispatcher("@,
            BackendId::Web(_) => "Web("@,
            BackendId::WinRt(_) => "WinRT("@,
        }
    }

    /// The text of the identity: the backend, the number in round brackets,
    /// and the end of the line.
    pub open spec fn spec_to_string(self) -> Seq<char> {
        self.spec_label() + decimal_text(self.spec_number() as nat) + ")\n"@
    }

    /// The text of the identity.
    pub fn to_string(&self) -> (text: String)
        ensures
            text@ == self.spec_to_string(),
    {
        let (label, number): (&str, u64) = match self {
            BackendId::Android(n) => ("Android(", *n),
            BackendId::AvFoundation(n) => ("AvFoundation(", *n),
            BackendId::SpeechDispatcher(n) => ("SpeechDispatcher(", *n as u64),
            BackendId::Web(n) => ("Web(", *n),
            BackendId::WinRt(n) => ("WinRT(", *n),
        };
        let mut text = String::from_str(label);
        text.append(render_u64(number).as_str());
        text.append(")\n");
        text
    }

    /// The backend that the session belongs to.
    #[verifier::when_used_as_spec(spec_kind)]
    pub fn kind(self) -> (kind: Backends)
        ensures
            kind == self.spec_kind(),
    {
        match self {
            BackendId::Android(_) => Backends::Android,
            BackendId::AvFoundation(_) => Backends::AvFoundation,
            BackendId::SpeechDispatcher(_) => Backends::SpeechDispatcher,
            BackendId::Web(_) => Backends::Web,
            BackendId::WinRt(_) => Backends::WinRt,
        }
    }
}

impl UtteranceId {
    /// The backend whose session accepted the request.
    pub open spec fn spec_kind(self) -> Backends {
        match self {
            UtteranceId::Android(_) => Backends::Android,
            UtteranceId::AvFoundation(_) => Backends::AvFoundation,
            UtteranceId::SpeechDispatcher(_) => Backends::SpeechDispatcher,
            UtteranceId::Web(_) => Backends::Web,
            UtteranceId::WinRt(_) => Backends::WinRt,
        }
    }

    /// The number of the request among those of its backend.
    pub open spec fn spec_number(self) -> int {
        match self {
            UtteranceId::Android(n) => n as int,
            UtteranceId::AvFoundation(n) => n as int,
            UtteranceId::SpeechDispatcher(n) => n as int,
            UtteranceId::Web(n) => n as int,
            UtteranceId::WinRt(n) => n as int,
        }
    }

    /// The word that opens the text of the identifier.
    pub open spec fn spec_label(self) -> Seq<char> {
        match self {
            UtteranceId::Android(_) => "Android("@,
            UtteranceId::AvFoundation(_) => "AvFoundation("@,
            UtteranceId::SpeechDispatcher(_) => "SpeechDispatcher("@,
            UtteranceId::Web(_) => "Web("@,
            UtteranceId::WinRt(_) => "WinRt("@,
        }
    }

    /// The text of the identifier: the backend, the number in round
    /// brackets, and the end of the line.
    pub open spec fn spec_to_string(self) -> Seq<char> {
        self.spec_label() + decimal_text(self.spec_number() as nat) + ")\n"@
    }

    /// The text of the identifier.
    pub fn to_string(&self) -> (text: String)
        ensures
            text@ == self.spec_to_string(),
    {
        let (label, number): (&str, u64) = match self {
            UtteranceId::Android(n) => ("Android(", *n),
            UtteranceId::AvFoundation(n) => ("AvFoundation(", *n as u64),
            UtteranceId::SpeechDispatcher(n) => ("SpeechDispatcher(", *n),
            UtteranceId::Web(n) => ("Web(", *n),
            UtteranceId::WinRt(n) => ("WinRt(", *n),
        };
        let mut text = String::from_str(label);
        text.append(render_u64(number).as_str());
        text.append(")\n");
        text
    }

    /// The backend whose session accepted the request.
    #[verifier::when_used_as_spec(spec_kind)]
    pub fn kind(self) -> (kind: Backends)
        ensures
            kind == self.spec_kind(),
    {
        match self {
            UtteranceId::Android(_) => Backends::Android,
            UtteranceId::AvFoundation(_) => Backends::AvFoundation,
            UtteranceId::SpeechDispatcher(_) => Backends::SpeechDispatcher,
            UtteranceId::Web(_) => Backends::Web,
            UtteranceId::WinRt(_) => Backends::WinRt,
        }
    }
}

/// A counter that hands out identifiers: each call returns the number that the
/// counter stands at and moves it up by one.
///
/// One allocator serves one purpose in one process: the sessions of a
/// backend, or the utterances of a backend. Whoever owns it guards it with a
/// lock; the numbers it gives are then never given twice.
#[derive(Debug)]
pub struct IdAllocator {
    next: u64,
}

impl IdAllocator {
    /// The number that the next identifier will carry.
    pub closed spec fn spec_issued(&self) -> nat {
        self.next as nat
    }

    /// Whether the counter has run through all 64-bit numbers but the last.
    pub open spec fn spec_is_exhausted(&self) -> bool {
        self.spec_issued() >= u64::MAX
    }

    /// A counter that stands at zero.
    pub fn new() -> (ids: IdAllocator)
        ensures
            ids.spec_issued() == 0,
    {
        IdAllocator { next: 0 }
    }

    /// How many identifiers were handed out so far.
    pub fn issued(&self) -> (n: u64)
        ensures
            n == self.spec_issued(),
    {
        self.next
    }

    /// Whether nothing more can be handed out.
    #[verifier::when_used_as_spec(spec_is_exhausted)]
    pub fn is_exhausted(&self) -> (exhausted: bool)
        ensures
            exhausted == self.spec_is_exhausted(),
    {
        self.next == u64::MAX
    }

    /// The identifier of a new session of `kind`.
    ///
    /// There is one for the backends whose sessions the library numbers.
    /// For the others nothing is returned and the counter stays where it is.
    pub fn next_backend_id(&mut self, kind: Backends) -> (id: Option<BackendId>)
        requires
            !old(self).spec_is_exhausted(),
        ensures
            id == backend_id_numbered(kind, old(self).spec_issued()),
            final(self).spec_issued() == old(self).spec_issued() + (if kind.numbers_sessions() {
                1nat
            } else {
                0nat
            }),
    {
        let n: u64 = self.next;
        let id = match kind {
            Backends::Android => Some(BackendId::Android(n)),
            Backends::AvFoundation => Some(BackendId::AvFoundation(n)),
            Backends::Web => Some(BackendId::Web(n)),
            Backends::WinRt => Some(BackendId::WinRt(n)),
            Backends::AppKit | Backends::SpeechDispatcher | Backends::Tolk => None,
        };
        if id.is_some() {
            self.next = n + 1;
        }
        id
    }

    /// The identifier of a new utterance of the session `scope`.
    ///
    /// There is one for the backends whose utterances the library numbers;
    /// it carries the backend of the session. For the others nothing is
    /// returned and the counter stays where it is.
    pub fn next_utterance_id(&mut self, scope: BackendId) -> (id: Option<UtteranceId>)
        requires
            !old(self).spec_is_exhausted(),
        ensures
            id == utterance_id_numbered(scope.spec_kind(), old(self).spec_issued()),
            final(self).spec_issued() == old(self).spec_issued() + (
            if scope.spec_kind().numbers_utterances() {
                1nat
            } else {
                0nat
            }),
    {
        let n: u64 = self.next;
        let id = match scope {
            BackendId::Android(_) => Some(UtteranceId::Android(n)),
            BackendId::Web(_) => Some(UtteranceId::Web(n)),
            BackendId::WinRt(_) => Some(UtteranceId::WinRt(n)),
            BackendId::AvFoundation(_) | BackendId::SpeechDispatcher(_) => None,
        };
        if id.is_some() {
            self.next = n + 1;
        }
        id
    }
}

/// The identifier of the session numbered `n` of `kind`, where the library
/// numbers the sessions of `kind`.
pub open spec fn backend_id_numbered(kind: Backends, n: nat) -> Option<BackendId> {
    match kind {
        Backends::Android => Some(BackendId::Android(n as u64)),
        Backends::AvFoundation => Some(BackendId::AvFoundation(n as u64)),
        Backends::Web => Some(BackendId::Web(n as u64)),
        Backends::WinRt => Some(BackendId::WinRt(n as u64)),
        Backends::AppKit | Backends::SpeechDispatcher | Backends::Tolk => None,
    }
}

/// Two sessions of a backend that were numbered at different counts of a
/// counter have different identities: no identity is given twice.
pub proof fn lemma_backend_ids_differ(kind: Backends, a: nat, b: nat)
    requires
        kind.numbers_sessions(),
        a != b,
        a <= u64::MAX,
        b <= u64::MAX,
    ensures
        backend_id_numbered(kind, a) is Some,
        backend_id_numbered(kind, b) is Some,
        backend_id_numbered(kind, a) != backend_id_numbered(kind, b),
{
}

/// Two utterances of a backend that were numbered at different counts of a
/// counter have different identifiers: no identifier is given twice.
pub proof fn lemma_utterance_ids_differ(kind: Backends, a: nat, b: nat)
    requires
        kind.numbers_utterances(),
        a != b,
        a <= u64::MAX,
        b <= u64::MAX,
    ensures
        utterance_id_numbered(kind, a) is Some,
        utterance_id_numbered(kind, b) is Some,
        utterance_id_numbered(kind, a) != utterance_id_numbered(kind, b),
{
}

/// The identifier of the utterance numbered `n` of `kind`, where the library
/// numbers the utterances of `kind`.
pub open spec fn utterance_id_numbered(kind: Backends, n: nat) -> Option<UtteranceId> {
    match kind {
        Backends::Android => Some(UtteranceId::Android(n as u64)),
        Backends::Web => Some(UtteranceId::Web(n as u64)),
        Backends::WinRt => Some(UtteranceId::WinRt(n as u64)),
        Backends::AppKit | Backends::AvFoundation | Backends::SpeechDispatcher | Backends::Tolk =>
            None,
    }
}

} // verus!
