//! Scalars as the library carries them.
//!
//! Every scalar is an IEEE-754 single-precision value held as its bit
//! pattern. The library stores, compares and hands these patterns on; it
//! never computes with them.

use vstd::prelude::*;

verus! {

/// Bit pattern of positive zero.
pub const ZERO: u32 = 0;

/// Bit pattern of negative zero, which as a number equals zero.
pub const NEG_ZERO: u32 = 0x8000_0000;

/// Bit pattern of one.
pub const ONE: u32 = 0x3F80_0000;

/// Bit pattern of five.
pub const FIVE: u32 = 0x40A0_0000;

/// Bit pattern of twenty.
pub const TWENTY: u32 = 0x41A0_0000;

/// Whether the scalar with this bit pattern is zero, of either sign.
pub open spec fn is_zero(bits: u32) -> bool {
    bits == ZERO || bits == NEG_ZERO
}

/// Three scalars: a position, a velocity, an axis or a scale.
#[derive(Clone, Copy, Debug, PartialEq, Eq, Structural)]
pub struct Vec3Bits {
    pub x: u32,
    pub y: u32,
    pub z: u32,
}

/// A quaternion: vector part `i`, `j`, `k` and scalar part `w`.
#[derive(Clone, Copy, Debug, PartialEq, Eq, Structural)]
pub struct QuatBits {
    pub i: u32,
    pub j: u32,
    pub k: u32,
    pub w: u32,
}

impl Vec3Bits {
    /// The vector with the three given components.
    pub fn new(x: u32, y: u32, z: u32) -> (r: Self)
        ensures
            r == (Vec3Bits { x, y, z }),
    {
        Vec3Bits { x, y, z }
    }

    /// The vector whose components are all positive zero.
    pub open spec fn spec_zero() -> Self {
        Vec3Bits { x: ZERO, y: ZERO, z: ZERO }
    }

    /// The vector whose components are all one.
    pub open spec fn spec_ones() -> Self {
        Vec3Bits { x: ONE, y: ONE, z: ONE }
    }

    /// The zero vector.
    #[verifier::when_used_as_spec(spec_zero)]
    pub fn zero() -> (r: Self)
        ensures
            r == Self::spec_zero(),
    {
        Vec3Bits { x: ZERO, y: ZERO, z: ZERO }
    }

    /// The vector of ones.
    #[verifier::when_used_as_spec(spec_ones)]
    pub fn ones() -> (r: Self)
        ensures
            r == Self::spec_ones(),
    {
        Vec3Bits { x: ONE, y: ONE, z: ONE }
    }
}

impl QuatBits {
    /// The quaternion with the given vector part and scalar part.
    pub fn new(i: u32, j: u32, k: u32, w: u32) -> (r: Self)
        ensures
            r == (QuatBits { i, j, k, w }),
    {
        QuatBits { i, j, k, w }
    }

    /// The rotation that turns nothing: zero vector part, scalar part one.
    pub open spec fn spec_identity() -> Self {
        QuatBits { i: ZERO, j: ZERO, k: ZERO, w: ONE }
    }

    /// The identity rotation.
    #[verifier::when_used_as_spec(spec_identity)]
    pub fn identity() -> (r: Self)
        ensures
            r == Self::spec_identity(),
    {
        QuatBits { i: ZERO, j: ZERO, k: ZERO, w: ONE }
    }
}

} // verus!
