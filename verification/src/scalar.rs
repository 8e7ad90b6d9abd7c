//! Real numbers as the engine carries them: IEEE 754 binary64 values held by
//! their 64-bit patterns.
//!
//! The engine never computes with these values itself. It moves them, flips
//! their sign and tells finite values from infinities and NaNs, all of which
//! are questions about bits.

use vstd::prelude::*;

verus! {

/// The bit that holds the sign of a binary64 value.
pub const SIGN_BIT: u64 = 0x8000_0000_0000_0000;

/// The eleven bits that hold the exponent of a binary64 value. A value whose
/// exponent bits are all set is an infinity or a NaN.
pub const EXPONENT_MASK: u64 = 0x7FF0_0000_0000_0000;

/// The pattern stands for a finite number: neither an infinity nor a NaN.
pub open spec fn finite_bits(bits: u64) -> bool {
    bits & EXPONENT_MASK != EXPONENT_MASK
}

/// A binary64 value, held as its bit pattern.
///
/// `==` compares patterns: two NaNs with different payloads differ, and so do
/// `+0` and `-0`.
#[derive(Clone, Copy, Debug, PartialEq, Eq, Hash, Structural)]
pub struct Scalar {
    pub bits: u64,
}

impl Scalar {
    /// Neither an infinity nor a NaN.
    pub open spec fn finite(self) -> bool {
        finite_bits(self.bits)
    }

    /// The value with the opposite sign: the same pattern with the sign bit
    /// flipped.
    pub open spec fn negated(self) -> Scalar {
        Scalar { bits: self.bits ^ SIGN_BIT }
    }

    /// Positive zero: the pattern without a bit set.
    pub open spec fn positive_zero() -> Scalar {
        Scalar { bits: 0 }
    }

    /// The value with the given pattern.
    pub fn from_bits(bits: u64) -> (s: Scalar)
        ensures
            s.bits == bits,
    {
        Scalar { bits }
    }

    /// The pattern of the value.
    pub fn to_bits(&self) -> (bits: u64)
        ensures
            bits == self.bits,
    {
        self.bits
    }

    /// Positive zero.
    pub fn zero() -> (s: Scalar)
        ensures
            s == Scalar::positive_zero(),
            s.finite(),
    {
        assert(0u64 & 0x7FF0_0000_0000_0000u64 != 0x7FF0_0000_0000_0000u64) by (bit_vector);
        Scalar { bits: 0 }
    }

    /// Tells whether the value is neither an infinity nor a NaN.
    pub fn is_finite(&self) -> (b: bool)
        ensures
            b == self.finite(),
    {
        self.bits & EXPONENT_MASK != EXPONENT_MASK
    }

    /// The value with the opposite sign.
    pub fn negate(&self) -> (s: Scalar)
        ensures
            s == self.negated(),
    {
        Scalar { bits: self.bits ^ SIGN_BIT }
    }

    /// Flipping the sign twice gives the pattern back.
    pub proof fn negated_twice(self)
        ensures
            self.negated().negated() == self,
    {
        let b = self.bits;
        assert((b ^ 0x8000_0000_0000_0000u64) ^ 0x8000_0000_0000_0000u64 == b) by (bit_vector);
    }

    /// Flipping the sign leaves the exponent alone.
    pub proof fn negated_keeps_finite(self)
        ensures
            self.negated().finite() == self.finite(),
    {
        let b = self.bits;
        assert((b ^ 0x8000_0000_0000_0000u64) & 0x7FF0_0000_0000_0000u64 == b
            & 0x7FF0_0000_0000_0000u64) by (bit_vector);
    }
}

/// Three scalars: a position in kilometres or a velocity in kilometres per
/// second.
#[derive(Clone, Copy, Debug, PartialEq, Eq, Hash, Structural)]
pub struct Vector3 {
    pub x: Scalar,
    pub y: Scalar,
    pub z: Scalar,
}

impl Vector3 {
    /// All three components are finite.
    pub open spec fn finite(self) -> bool {
        self.x.finite() && self.y.finite() && self.z.finite()
    }

    /// Three positive zeros.
    pub open spec fn zeros() -> Vector3 {
        Vector3 {
            x: Scalar::positive_zero(),
            y: Scalar::positive_zero(),
            z: Scalar::positive_zero(),
        }
    }

    /// The vector with the given components.
    pub fn new(x: Scalar, y: Scalar, z: Scalar) -> (v: Vector3)
        ensures
            v == (Vector3 { x, y, z }),
    {
        Vector3 { x, y, z }
    }

    /// Tells whether no component is an infinity or a NaN.
    pub fn is_finite(&self) -> (b: bool)
        ensures
            b == self.finite(),
    {
        self.x.is_finite() && self.y.is_finite() && self.z.is_finite()
    }
}

} // verus!
