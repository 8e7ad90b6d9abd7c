//! The decay test: is a position below the surface of the Earth?
//!
//! The propagation model goes on returning positions after drag has taken
//! an orbit down, and those positions lie inside the Earth. The engine
//! does not hand them out. It measures a position without computing in
//! floating point: each coordinate is read from its bit pattern as a whole
//! number of metres, rounded toward zero, and the squares are summed as
//! integers.

use vstd::arithmetic::div_mod::lemma_basic_div;
use vstd::arithmetic::power2::lemma2_to64;
use vstd::arithmetic::power2::lemma_pow2_strictly_increases;
use vstd::arithmetic::power2::pow2;
use vstd::bits::lemma_u64_shr_is_div;
use vstd::prelude::*;
use crate::scalar::Scalar;
use crate::scalar::Vector3;

verus! {

/// The 52 bits that hold the fraction of a binary64 value.
pub const FRACTION_MASK: u64 = 0x000F_FFFF_FFFF_FFFF;

/// The leading one of the significand, which a normal value does not
/// store: 2^52.
pub const IMPLICIT_ONE: u64 = 0x0010_0000_0000_0000;

/// The exponent field at which the significand counts units: a normal
/// value with exponent field `e` is its significand times 2^(e - 1075).
pub const UNIT_EXPONENT: u64 = 1075;

/// The metres that stand for every length of 2^53 km or more: 2^63.
pub const FAR_METRES: u64 = 0x8000_0000_0000_0000;

/// The equatorial radius of the Earth in the WGS84 geopotential model, in
/// metres.
pub const SURFACE_RADIUS_METRES: u64 = 6_378_137;

/// The exponent field of a bit pattern.
pub open spec fn exponent_field(bits: u64) -> u64 {
    (bits >> 52) & 0x7FF
}

/// The fraction field of a bit pattern.
pub open spec fn fraction_field(bits: u64) -> u64 {
    bits & FRACTION_MASK
}

/// The magnitude of a length in whole metres, rounded toward zero, for a
/// length whose bit pattern in kilometres is `km_bits`.
///
/// A normal value below 2^53 is `(2^52 + fraction) * 2^(exponent - 1075)`
/// kilometres, a thousand times as many metres. Zero and the subnormal
/// values are less than a metre. Every larger value, the infinities and
/// NaNs among them, counts as `FAR_METRES`.
pub open spec fn whole_metres(km_bits: u64) -> nat {
    let exponent = exponent_field(km_bits);
    if exponent == 0 {
        0
    } else if exponent > UNIT_EXPONENT {
        FAR_METRES as nat
    } else {
        ((IMPLICIT_ONE + fraction_field(km_bits)) * 1000) as nat / pow2(
            (UNIT_EXPONENT - exponent) as nat,
        )
    }
}

/// The square of the distance of a position from the centre of the Earth,
/// in square metres, each coordinate taken in whole metres.
pub open spec fn radius_squared(position_km: Vector3) -> nat {
    whole_metres(position_km.x.bits) * whole_metres(position_km.x.bits) + whole_metres(
        position_km.y.bits,
    ) * whole_metres(position_km.y.bits) + whole_metres(position_km.z.bits) * whole_metres(
        position_km.z.bits,
    )
}

/// The position lies below the surface of the Earth: nearer to its centre
/// than the equatorial radius.
pub open spec fn below_surface(position_km: Vector3) -> bool {
    radius_squared(position_km) < SURFACE_RADIUS_METRES * SURFACE_RADIUS_METRES
}

/// Reads the magnitude of a length in kilometres as whole metres.
pub fn whole_metres_of(km: Scalar) -> (metres: u64)
    ensures
        metres == whole_metres(km.bits),
        metres <= FAR_METRES,
{
    let bits: u64 = km.bits;
    let exponent: u64 = (bits >> 52) & 0x7FF;
    let fraction: u64 = bits & FRACTION_MASK;
    assert(fraction < 0x0010_0000_0000_0000u64) by (bit_vector)
        requires
            fraction == bits & 0x000F_FFFF_FFFF_FFFFu64,
    ;
    if exponent == 0 {
        0
    } else if exponent > UNIT_EXPONENT {
        FAR_METRES
    } else {
        let scaled: u64 = (IMPLICIT_ONE + fraction) * 1000;
        let shift: u64 = UNIT_EXPONENT - exponent;
        if shift >= 64 {
            proof {
                lemma2_to64();
                if shift > 64 {
                    lemma_pow2_strictly_increases(64, shift as nat);
                }
                lemma_basic_div(scaled as int, pow2(shift as nat) as int);
            }
            0
        } else {
            proof {
                lemma_u64_shr_is_div(scaled, shift);
                assert(scaled >> shift <= scaled) by (bit_vector);
            }
            scaled >> shift
        }
    }
}

/// Tells whether a position, given in kilometres from the centre of the
/// Earth, lies below the surface.
pub fn is_below_surface(position_km: &Vector3) -> (b: bool)
    ensures
        b == below_surface(*position_km),
{
    let x: u128 = whole_metres_of(position_km.x) as u128;
    let y: u128 = whole_metres_of(position_km.y) as u128;
    let z: u128 = whole_metres_of(position_km.z) as u128;
    assert(x * x <= 0x4000_0000_0000_0000_0000_0000_0000_0000) by (nonlinear_arith)
        requires
            x <= 0x8000_0000_0000_0000,
    ;
    assert(y * y <= 0x4000_0000_0000_0000_0000_0000_0000_0000) by (nonlinear_arith)
        requires
            y <= 0x8000_0000_0000_0000,
    ;
    assert(z * z <= 0x4000_0000_0000_0000_0000_0000_0000_0000) by (nonlinear_arith)
        requires
            z <= 0x8000_0000_0000_0000,
    ;
    let surface: u128 = SURFACE_RADIUS_METRES as u128;
    x * x + y * y + z * z < surface * surface
}

} // verus!
