//! The scene at the start: a camera, a cube that turns, and a light.

use vstd::prelude::*;
use crate::bits::FIVE;
use crate::bits::QuatBits;
use crate::bits::TWENTY;
use crate::bits::Vec3Bits;
use crate::bits::ZERO;
use crate::momentum::Momentum;
use crate::momentum::Spin;
use crate::scene::Entity;
use crate::scene::Scene;
use crate::transform::Transform;

verus! {

/// The state in which the scene is set up.
pub struct GameState;

/// The camera: five units up the z axis, and it never moves.
pub open spec fn camera() -> Entity {
    Entity {
        transform: Some(
            Transform {
                translation: Vec3Bits { x: ZERO, y: ZERO, z: FIVE },
                ..Transform::spec_identity()
            },
        ),
        momentum: None,
    }
}

/// The light: at (5, 5, 20), and it never moves.
pub open spec fn light() -> Entity {
    Entity {
        transform: Some(
            Transform {
                translation: Vec3Bits { x: FIVE, y: FIVE, z: TWENTY },
                ..Transform::spec_identity()
            },
        ),
        momentum: None,
    }
}

/// Whether `entity` is the cube: at the origin, not turned, scaled by one,
/// with no linear velocity and the angular velocity `axial`.
pub open spec fn is_cube(entity: Entity, axial: Spin) -> bool {
    &&& entity.transform == Some(Transform::spec_identity())
    &&& entity.momentum is Some
    &&& entity.momentum->0.linear() == Vec3Bits::spec_zero()
    &&& entity.momentum->0.axial() == axial
}

/// Adds the camera and returns its index.
pub fn initialize_camera(world: &mut Scene) -> (id: usize)
    ensures
        id == old(world)@.len(),
        final(world)@ == old(world)@.push(camera()),
{
    let mut transform = Transform::default();
    transform.set_translation_xyz(ZERO, ZERO, FIVE);
    world.create_entity(Some(transform), None)
}

/// Adds the cube, which turns with `axial`, and returns its index.
pub fn initialize_cube(world: &mut Scene, axial: Spin) -> (id: usize)
    ensures
        id == old(world)@.len(),
        final(world)@.len() == old(world)@.len() + 1,
        final(world)@.take(id as int) == old(world)@,
        is_cube(final(world)@[id as int], axial),
{
    let position = Vec3Bits::zero();
    let rotation = QuatBits::identity();
    let scale = Vec3Bits::ones();
    let transform = Transform::new(position, rotation, scale);
    let linear = Vec3Bits::zero();
    let momentum = Momentum::new(linear, axial);
    let id = world.create_entity(Some(transform), Some(momentum));
    assert(world@.take(id as int) =~= old(world)@);
    id
}

/// Adds the light and returns its index.
pub fn initialize_light(world: &mut Scene) -> (id: usize)
    ensures
        id == old(world)@.len(),
        final(world)@ == old(world)@.push(light()),
{
    let mut transform = Transform::default();
    transform.set_translation_xyz(FIVE, FIVE, TWENTY);
    world.create_entity(Some(transform), None)
}

impl GameState {
    /// Sets the scene up: the camera, then the cube, then the light.
    pub fn on_start(&mut self, world: &mut Scene, axial: Spin)
        ensures
            final(world)@.len() == old(world)@.len() + 3,
            final(world)@.take(old(world)@.len() as int) == old(world)@,
            final(world)@[old(world)@.len() as int] == camera(),
            is_cube(final(world)@[old(world)@.len() as int + 1], axial),
            final(world)@[old(world)@.len() as int + 2] == light(),
    {
        let ghost before = world@;
        initialize_camera(world);
        let ghost with_camera = world@;
        initialize_cube(world, axial);
        let ghost with_cube = world@;
        initialize_light(world);
        proof {
            let n = before.len() as int;
            assert(with_cube.take(n + 1) == with_camera);
            assert(with_cube[n] == with_cube.take(n + 1)[n]);
            assert forall|i: int| 0 <= i < n implies world@.take(n)[i] == before[i] by {
                assert(with_cube[i] == with_cube.take(n + 1)[i]);
            }
            assert(world@.take(n) =~= before);
        }
    }
}

} // verus!
