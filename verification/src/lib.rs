//! Constant-velocity motion for the entities of a scene.
//!
//! An entity may carry a [`transform::Transform`] and a
//! [`momentum::Momentum`]. Each frame the [`system::MomentumSystem`] turns
//! and shifts every entity that carries both, and leaves the others alone.

pub mod bits;
pub mod bootstrap;
pub mod momentum;
pub mod scene;
pub mod system;
pub mod transform;

pub use crate::bits::QuatBits;
pub use crate::bits::Vec3Bits;
pub use crate::bootstrap::GameState;
pub use crate::momentum::Momentum;
pub use crate::momentum::Spin;
pub use crate::scene::Entity;
pub use crate::scene::Scene;
pub use crate::system::MomentumSystem;
pub use crate::transform::Transform;
