//! Which backend a platform gets when the caller names none.

use crate::decimal::{parse_i8, spec_parse_i8};
use crate::ids::Backends;
use vstd::prelude::*;
use vstd::slice::slice_subrange;
use vstd::string::StringSliceAdditionalSpecFns;

verus! {

/// The kinds of platform that the facade runs on.
#[derive(Clone, Copy, Debug, PartialEq, Eq, Hash, Structural)]
pub enum Platform {
    Android,
    /// iOS, tvOS, watchOS and visionOS.
    AppleMobile,
    Linux,
    MacOs,
    Wasm,
    Windows,
}

/// Where in `text` the first `separator` stands, or the length of `text`
/// where there is none.
pub open spec fn first_at(text: Seq<u8>, separator: u8) -> int
    decreases text.len(),
{
    if text.len() == 0 || text[0] == separator {
        0
    } else {
        1 + first_at(text.drop_first(), separator)
    }
}

/// The piece numbered `k`, from zero, of `text` cut at every `separator`.
/// Two separators in a row have an empty piece between them.
pub open spec fn piece(text: Seq<u8>, separator: u8, k: nat) -> Option<Seq<u8>>
    decreases k,
{
    let end = first_at(text, separator);
    if k == 0 {
        Some(text.subrange(0, end))
    } else if end >= text.len() {
        None
    } else {
        piece(text.subrange(end + 1, text.len() as int), separator, (k - 1) as nat)
    }
}

/// The major and the minor number of the system, as its description gives
/// them: the description is cut at blanks, its second word is cut at dots,
/// and the first two pieces of that are read as signed numbers of 8 bits.
/// A description that is not made so gives nothing.
pub open spec fn system_version(description: Seq<u8>) -> Option<(i8, i8)> {
    match piece(description, 32, 1) {
        Some(version) => match (piece(version, 46, 0), piece(version, 46, 1)) {
            (Some(major), Some(minor)) => match (spec_parse_i8(major), spec_parse_i8(minor)) {
                (Some(a), Some(b)) => Some((a, b)),
                _ => None,
            },
            _ => None,
        },
        None => None,
    }
}

/// The backend for a Mac whose system has this version: AVFoundation from
/// major version 11 on, and for every minor version from 14 on; AppKit for
/// the systems before.
pub open spec fn spec_macos_backend(major: i8, minor: i8) -> Backends {
    if major >= 11 || minor >= 14 {
        Backends::AvFoundation
    } else {
        Backends::AppKit
    }
}

/// The backends to try, first to last, on `platform`. On Windows the screen
/// reader comes first where the library was built with Tolk. On a Mac the
/// version of the system decides, and where it cannot be read there is
/// nothing to try.
pub open spec fn spec_default_backends(platform: Platform, tolk: bool, description: Seq<u8>)
    -> Seq<Backends> {
    match platform {
        Platform::Android => seq![Backends::Android],
        Platform::AppleMobile => seq![Backends::AvFoundation],
        Platform::Linux => seq![Backends::SpeechDispatcher],
        Platform::Wasm => seq![Backends::Web],
        Platform::Windows => if tolk {
            seq![Backends::Tolk, Backends::WinRt]
        } else {
            seq![Backends::WinRt]
        },
        Platform::MacOs => match system_version(description) {
            Some((major, minor)) => seq![spec_macos_backend(major, minor)],
            None => Seq::empty(),
        },
    }
}

proof fn lemma_first_at_bounds(text: Seq<u8>, separator: u8)
    ensures
        0 <= first_at(text, separator) <= text.len(),
        first_at(text, separator) < text.len() ==> text[first_at(text, separator)] == separator,
        forall|i: int| 0 <= i < first_at(text, separator) ==> text[i] != separator,
    decreases text.len(),
{
    if text.len() == 0 || text[0] == separator {
    } else {
        let rest = text.drop_first();
        lemma_first_at_bounds(rest, separator);
        assert forall|i: int| 0 <= i < first_at(text, separator) implies text[i] != separator by {
            if i > 0 {
                assert(rest[i - 1] == text[i]);
            }
        }
    }
}

proof fn lemma_first_at_is(text: Seq<u8>, separator: u8, at: int)
    requires
        0 <= at <= text.len(),
        forall|i: int| 0 <= i < at ==> text[i] != separator,
        at < text.len() ==> text[at] == separator,
    ensures
        first_at(text, separator) == at,
{
    lemma_first_at_bounds(text, separator);
}

/// Where the first `separator` of `text[from..]` stands in `text`, or the
/// length of `text` where there is none.
fn find(text: &[u8], from: usize, separator: u8) -> (at: usize)
    requires
        from <= text@.len(),
    ensures
        from <= at <= text@.len(),
        at - from == first_at(text@.subrange(from as int, text@.len() as int), separator),
{
    let ghost rest = text@.subrange(from as int, text@.len() as int);
    let mut at: usize = from;
    while at < text.len() && text[at] != separator
        invariant
            from <= at <= text@.len(),
            rest == text@.subrange(from as int, text@.len() as int),
            forall|i: int| 0 <= i < at - from ==> rest[i] != separator,
        decreases text@.len() - at,
    {
        assert(rest[at - from] == text@[at as int]);
        at += 1;
    }
    proof {
        if at < text@.len() {
            assert(rest[at - from] == text@[at as int]);
        }
        lemma_first_at_is(rest, separator, at - from);
    }
    at
}

/// The piece numbered `k` of `text` cut at every `separator`.
fn cut(text: &[u8], separator: u8, k: u8) -> (found: Option<&[u8]>)
    ensures
        found is Some <==> piece(text@, separator, k as nat) is Some,
        found matches Some(p) ==> piece(text@, separator, k as nat) == Some(p@),
{
    let mut from: usize = 0;
    let mut left: u8 = k;
    assert(text@.subrange(0, text@.len() as int) =~= text@);
    loop
        invariant
            from <= text@.len(),
            piece(text@, separator, k as nat) == piece(
                text@.subrange(from as int, text@.len() as int),
                separator,
                left as nat,
            ),
        decreases left,
    {
        let ghost rest = text@.subrange(from as int, text@.len() as int);
        let end = find(text, from, separator);
        if left == 0 {
            let found = slice_subrange(text, from, end);
            assert(found@ =~= rest.subrange(0, end - from));
            return Some(found);
        }
        if end >= text.len() {
            return None;
        }
        assert(rest.subrange(end - from + 1, rest.len() as int) =~= text@.subrange(
            end + 1,
            text@.len() as int,
        ));
        from = end + 1;
        left = left - 1;
    }
}

/// Reads the major and the minor number of the system from its description.
pub fn read_system_version(description: &str) -> (version: Option<(i8, i8)>)
    ensures
        version == system_version(description.spec_bytes()),
{
    let bytes = description.as_bytes();
    let word = match cut(bytes, 32, 1) {
        Some(word) => word,
        None => {
            return None;
        },
    };
    let major = match cut(word, 46, 0) {
        Some(piece) => parse_i8(piece),
        None => None,
    };
    let minor = match cut(word, 46, 1) {
        Some(piece) => parse_i8(piece),
        None => None,
    };
    match (major, minor) {
        (Some(a), Some(b)) => Some((a, b)),
        _ => None,
    }
}

/// The backend for a Mac whose system has this version.
#[verifier::when_used_as_spec(spec_macos_backend)]
pub fn macos_backend(major: i8, minor: i8) -> (backend: Backends)
    ensures
        backend == spec_macos_backend(major, minor),
{
    if major >= 11 || minor >= 14 {
        Backends::AvFoundation
    } else {
        Backends::AppKit
    }
}

/// The backends to try, first to last, when the caller names none.
///
/// `tolk` tells whether the library was built with Tolk; it matters on
/// Windows only. `description` is what the system says of its version; it
/// matters on a Mac only.
pub fn default_backends(platform: Platform, tolk: bool, description: &str) -> (backends: Vec<
    Backends,
>)
    ensures
        backends@ == spec_default_backends(platform, tolk, description.spec_bytes()),
{
    let mut backends: Vec<Backends> = Vec::new();
    match platform {
        Platform::Android => {
            backends.push(Backends::Android);
        },
        Platform::AppleMobile => {
            backends.push(Backends::AvFoundation);
        },
        Platform::Linux => {
            backends.push(Backends::SpeechDispatcher);
        },
        Platform::Wasm => {
            backends.push(Backends::Web);
        },
        Platform::Windows => {
            if tolk {
                backends.push(Backends::Tolk);
            }
            backends.push(Backends::WinRt);
        },
        Platform::MacOs => {
            match read_system_version(description) {
                Some((major, minor)) => {
                    backends.push(macos_backend(major, minor));
                },
                None => {},
            }
        },
    }
    assert(backends@ =~= spec_default_backends(platform, tolk, description.spec_bytes()));
    backends
}

} // verus!
