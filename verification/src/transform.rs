//! Where an entity stands: its position, its orientation and its scale.

use vstd::prelude::*;
use crate::bits::QuatBits;
use crate::bits::Vec3Bits;

verus! {

/// The spatial transform of an entity.
///
/// `orientation` is a unit quaternion. The library keeps it as it was
/// given: whoever computes a new orientation answers for its length.
#[derive(Clone, Copy, Debug, PartialEq, Eq, Structural)]
pub struct Transform {
    pub translation: Vec3Bits,
    pub orientation: QuatBits,
    pub scale: Vec3Bits,
}

impl Transform {
    /// The transform that leaves everything in place: at the origin, not
    /// turned, scaled by one.
    pub open spec fn spec_identity() -> Self {
        Transform {
            translation: Vec3Bits::spec_zero(),
            orientation: QuatBits::spec_identity(),
            scale: Vec3Bits::spec_ones(),
        }
    }

    /// The transform with the given parts.
    pub fn new(translation: Vec3Bits, orientation: QuatBits, scale: Vec3Bits) -> (r: Self)
        ensures
            r == (Transform { translation, orientation, scale }),
    {
        Transform { translation, orientation, scale }
    }

    /// Puts the entity at `(x, y, z)`; orientation and scale stay.
    pub fn set_translation_xyz(&mut self, x: u32, y: u32, z: u32)
        ensures
            *final(self) == (Transform { translation: Vec3Bits { x, y, z }, ..*old(self) }),
    {
        self.translation = Vec3Bits::new(x, y, z);
    }
}

impl Default for Transform {
    /// The identity.
    fn default() -> (r: Self)
        ensures
            r == Transform::spec_identity(),
    {
        Transform {
            translation: Vec3Bits::zero(),
            orientation: QuatBits::identity(),
            scale: Vec3Bits::ones(),
        }
    }
}

} // verus!
