//! The entity store: every entity of a scene with the components it has.

use vstd::prelude::*;
use crate::momentum::Momentum;
use crate::transform::Transform;

verus! {

/// What one entity carries. Each component is there once or not at all.
#[derive(Clone, Copy, Debug, PartialEq, Eq, Structural)]
pub struct Entity {
    pub transform: Option<Transform>,
    pub momentum: Option<Momentum>,
}

/// A scene. An entity is known by its index, in order of creation, and is
/// never removed.
pub struct Scene {
    entities: Vec<Entity>,
}

impl View for Scene {
    type V = Seq<Entity>;

    closed spec fn view(&self) -> Seq<Entity> {
        self.entities@
    }
}

impl Scene {
    /// The scene without entities.
    pub fn new() -> (r: Self)
        ensures
            r@ == Seq::<Entity>::empty(),
    {
        Scene { entities: Vec::new() }
    }

    /// The number of entities.
    pub fn len(&self) -> (n: usize)
        ensures
            n == self@.len(),
    {
        self.entities.len()
    }

    /// Adds an entity with the given components and returns its index.
    pub fn create_entity(&mut self, transform: Option<Transform>, momentum: Option<Momentum>) -> (id: usize)
        ensures
            id == old(self)@.len(),
            final(self)@ == old(self)@.push(Entity { transform, momentum }),
    {
        let id: usize = self.entities.len();
        self.entities.push(Entity { transform, momentum });
        id
    }

    /// The entity's components, if there is such an entity.
    pub fn entity(&self, id: usize) -> (r: Option<Entity>)
        ensures
            r == (if id < self@.len() { Some(self@[id as int]) } else { None }),
    {
        if id < self.entities.len() {
            Some(self.entities[id])
        } else {
            None
        }
    }

    /// The entity's transform, if the entity exists and has one.
    pub fn transform(&self, id: usize) -> (r: Option<Transform>)
        ensures
            r == (if id < self@.len() { self@[id as int].transform } else { None }),
    {
        if id < self.entities.len() {
            self.entities[id].transform
        } else {
            None
        }
    }

    /// The entity's momentum, if the entity exists and has one.
    pub fn momentum(&self, id: usize) -> (r: Option<Momentum>)
        ensures
            r == (if id < self@.len() { self@[id as int].momentum } else { None }),
    {
        if id < self.entities.len() {
            self.entities[id].momentum
        } else {
            None
        }
    }

    /// Gives the entity a new transform. Nothing else changes.
    pub(crate) fn put_transform(&mut self, id: usize, transform: Transform)
        requires
            id < old(self)@.len(),
        ensures
            final(self)@ == old(self)@.update(
                id as int,
                Entity { transform: Some(transform), ..old(self)@[id as int] },
            ),
    {
        let momentum = self.entities[id].momentum;
        self.entities[id] = Entity { transform: Some(transform), momentum };
    }
}

} // verus!
