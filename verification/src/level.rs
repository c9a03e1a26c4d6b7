//! The values of rate, pitch and volume.

use vstd::prelude::*;

verus! {

/// The largest distance from zero that a number can have: the one of the two
/// infinities. Beyond it a bit pattern is no number.
pub const INFINITY_MAGNITUDE: i32 = 0x7F80_0000;

/// The integer that orders the bit pattern `bits` of a single-precision
/// number as the numbers are ordered: the pattern without its sign bit, taken
/// negative where the sign bit is set.
pub open spec fn signed_magnitude(bits: u32) -> int {
    if bits < 0x8000_0000 {
        bits as int
    } else {
        -(bits as int - 0x8000_0000)
    }
}

/// A value of rate, pitch or volume.
///
/// Engines take these as single-precision numbers. The library never
/// calculates with them: it stores them, hands them on and compares them
/// with bounds. So it holds each as the one integer that orders like the
/// number, its signed magnitude, and needs no floating point. The two zeros
/// share the integer 0.
#[derive(Clone, Copy, Debug, PartialEq, Eq, Structural, Hash)]
pub struct Level {
    key: i32,
}

impl View for Level {
    type V = int;

    closed spec fn view(&self) -> int {
        self.key as int
    }
}

impl Level {
    #[verifier::type_invariant]
    spec fn in_range(self) -> bool {
        self.key > i32::MIN
    }

    /// Whether the value is a number, an infinity included.
    pub open spec fn spec_is_number(self) -> bool {
        -INFINITY_MAGNITUDE <= self@ <= INFINITY_MAGNITUDE
    }

    /// Whether the value lies between `min` and `max`, both included. Where
    /// one of the three is no number, it does not.
    pub open spec fn spec_within(self, min: Level, max: Level) -> bool {
        &&& self.spec_is_number()
        &&& min.spec_is_number()
        &&& max.spec_is_number()
        &&& min@ <= self@ <= max@
    }

    /// The value with the bit pattern `bits`.
    pub closed spec fn spec_from_bits(bits: u32) -> Level {
        Level { key: signed_magnitude(bits) as i32 }
    }

    /// The value with the bit pattern `bits`.
    #[verifier::when_used_as_spec(spec_from_bits)]
    pub fn from_bits(bits: u32) -> (level: Level)
        ensures
            level == Level::spec_from_bits(bits),
            level@ == signed_magnitude(bits),
    {
        if bits < 0x8000_0000 {
            Level { key: bits as i32 }
        } else {
            let magnitude: u32 = bits - 0x8000_0000;
            Level { key: -(magnitude as i32) }
        }
    }

    /// The bit pattern of the value. Zero comes back with a clear sign bit.
    pub fn to_bits(self) -> (bits: u32)
        ensures
            signed_magnitude(bits) == self@,
            bits != 0x8000_0000,
    {
        proof {
            use_type_invariant(&self);
        }
        if self.key >= 0 {
            self.key as u32
        } else {
            let magnitude: i32 = -self.key;
            magnitude as u32 + 0x8000_0000
        }
    }

    /// Whether the value is a number, an infinity included.
    #[verifier::when_used_as_spec(spec_is_number)]
    pub fn is_number(self) -> (number: bool)
        ensures
            number == self.spec_is_number(),
    {
        -INFINITY_MAGNITUDE <= self.key && self.key <= INFINITY_MAGNITUDE
    }

    /// Whether the value lies between `min` and `max`, both included.
    #[verifier::when_used_as_spec(spec_within)]
    pub fn within(self, min: Level, max: Level) -> (inside: bool)
        ensures
            inside == self.spec_within(min, max),
    {
        self.is_number() && min.is_number() && max.is_number() && min.key <= self.key && self.key
            <= max.key
    }
}

/// The value made of a bit pattern holds the signed magnitude of the
/// pattern.
pub proof fn lemma_from_bits_view(bits: u32)
    ensures
        Level::spec_from_bits(bits)@ == signed_magnitude(bits),
{
}

/// Two values with the same integer are the same value.
pub proof fn lemma_level_view_injective(a: Level, b: Level)
    requires
        a@ == b@,
    ensures
        a == b,
{
}

/// Every bit pattern but that of negative zero comes back from the value
/// that was made of it.
pub proof fn lemma_signed_magnitude_injective(a: u32, b: u32)
    requires
        signed_magnitude(a) == signed_magnitude(b),
        a != 0x8000_0000,
        b != 0x8000_0000,
    ensures
        a == b,
{
}

} // verus!
