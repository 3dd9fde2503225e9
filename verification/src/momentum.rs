//! The motion that an entity keeps: a constant linear velocity and a
//! constant rate of rotation about a fixed axis.

use vstd::prelude::*;
use crate::bits::is_zero;
use crate::bits::NEG_ZERO;
use crate::bits::Vec3Bits;
use crate::bits::ZERO;

verus! {

/// A constant angular velocity. An entity that does not turn has no axis:
/// `Still` stands for it, so no axis is ever read where there is none.
#[derive(Clone, Copy, Debug, PartialEq, Eq, Structural)]
pub enum Spin {
    /// No rotation.
    Still,
    /// `rate` radians per second about the unit vector `axis`.
    About { axis: Vec3Bits, rate: u32 },
}

impl Spin {
    /// Whether anything rotates: there is an axis and the rate is not zero.
    pub open spec fn turning(self) -> bool {
        match self {
            Spin::Still => false,
            Spin::About { axis, rate } => !is_zero(rate),
        }
    }

    /// Whether anything rotates.
    pub fn turns(&self) -> (r: bool)
        ensures
            r == self.turning(),
    {
        match self {
            Spin::Still => false,
            Spin::About { axis: _, rate } => *rate != ZERO && *rate != NEG_ZERO,
        }
    }
}

/// Linear and axial momentum, applied to an entity frame after frame.
#[derive(Clone, Copy, Debug, PartialEq, Eq, Structural)]
pub struct Momentum {
    linear: Vec3Bits,
    axial: Spin,
}

impl Momentum {
    /// The linear velocity, in units per second.
    pub closed spec fn linear(self) -> Vec3Bits {
        self.linear
    }

    /// The angular velocity.
    pub closed spec fn axial(self) -> Spin {
        self.axial
    }

    /// A momentum is its two velocities and nothing more: two momenta
    /// with the same linear and the same angular velocity are equal.
    pub proof fn lemma_velocities_determine(a: Momentum, b: Momentum)
        requires
            a.linear() == b.linear(),
            a.axial() == b.axial(),
        ensures
            a == b,
    {
    }

    /// The momentum with the given linear and angular velocity. Every
    /// value is taken as it is.
    pub fn new(linear: Vec3Bits, axial: Spin) -> (r: Self)
        ensures
            r.linear() == linear,
            r.axial() == axial,
    {
        Momentum { linear, axial }
    }

    /// The linear velocity.
    pub fn translation(&self) -> (r: &Vec3Bits)
        ensures
            *r == self.linear(),
    {
        &self.linear
    }

    /// The angular velocity.
    pub fn rotation(&self) -> (r: &Spin)
        ensures
            *r == self.axial(),
    {
        &self.axial
    }
}

impl Default for Momentum {
    /// No motion: zero linear velocity and no rotation.
    fn default() -> (r: Self)
        ensures
            r.linear() == Vec3Bits::spec_zero(),
            r.axial() == Spin::Still,
    {
        Momentum { linear: Vec3Bits::zero(), axial: Spin::Still }
    }
}

} // verus!
