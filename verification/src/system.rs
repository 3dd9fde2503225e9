//! The per-frame step: every entity that has both a transform and a
//! momentum is turned and then shifted by what its momentum says.
//!
//! The library carries scalars without computing on them, so the two
//! numeric operations of a step come from the caller: `turn` composes an
//! orientation with a rotation, `shift` adds a displacement to a position.
//! Everything else, which entities move, in what order the operations are
//! applied and what is left alone, is decided and proved here, for every
//! pair of operations.

use vstd::prelude::*;
use crate::bits::QuatBits;
use crate::bits::Vec3Bits;
use crate::momentum::Momentum;
use crate::momentum::Spin;
use crate::scene::Entity;
use crate::scene::Scene;
use crate::transform::Transform;

verus! {

/// Applies momentum to the entities that have a transform and a momentum.
pub struct MomentumSystem;

/// Whether `next` is a transform that one step of `dt` seconds may give an
/// entity that stood at `transform` with `momentum`.
///
/// The orientation is what `turn` returns for the old orientation, the axis
/// and the rate, or the old orientation itself where nothing rotates or the
/// rate is zero. The translation is what `shift` returns for the old
/// translation, the new orientation and the linear velocity. The scale is
/// the old one.
pub open spec fn stepped<F, G>(
    turn: F,
    shift: G,
    dt: u32,
    transform: Transform,
    momentum: Momentum,
    next: Transform,
) -> bool where
    F: Fn(QuatBits, Vec3Bits, u32, u32) -> QuatBits,
    G: Fn(Vec3Bits, QuatBits, Vec3Bits, u32) -> Vec3Bits,
 {
    &&& next.scale == transform.scale
    &&& match momentum.axial() {
        Spin::About { axis, rate } if momentum.axial().turning() => turn.ensures(
            (transform.orientation, axis, rate, dt),
            next.orientation,
        ),
        _ => next.orientation == transform.orientation,
    }
    &&& shift.ensures(
        (transform.translation, next.orientation, momentum.linear(), dt),
        next.translation,
    )
}

/// Whether `turn` and `shift` accept what a step from `transform` with
/// `momentum` hands them: `turn` the old orientation, where something
/// rotates, and `shift` every orientation that can come of it.
pub open spec fn steppable<F, G>(
    turn: F,
    shift: G,
    dt: u32,
    transform: Transform,
    momentum: Momentum,
) -> bool where
    F: Fn(QuatBits, Vec3Bits, u32, u32) -> QuatBits,
    G: Fn(Vec3Bits, QuatBits, Vec3Bits, u32) -> Vec3Bits,
 {
    match momentum.axial() {
        Spin::About { axis, rate } if momentum.axial().turning() => {
            &&& turn.requires((transform.orientation, axis, rate, dt))
            &&& forall|o: QuatBits| #[trigger]
                turn.ensures((transform.orientation, axis, rate, dt), o) ==> shift.requires(
                    (transform.translation, o, momentum.linear(), dt),
                )
        },
        _ => shift.requires(
            (transform.translation, transform.orientation, momentum.linear(), dt),
        ),
    }
}

/// Whether the system moves this entity: it has both components.
pub open spec fn moving(entity: Entity) -> bool {
    entity.transform is Some && entity.momentum is Some
}

/// What one frame may make of one entity: one with both components is
/// stepped and keeps its momentum, any other is left as it is.
pub open spec fn advanced<F, G>(turn: F, shift: G, dt: u32, before: Entity, after: Entity) -> bool where
    F: Fn(QuatBits, Vec3Bits, u32, u32) -> QuatBits,
    G: Fn(Vec3Bits, QuatBits, Vec3Bits, u32) -> Vec3Bits,
 {
    if moving(before) {
        &&& after.momentum == before.momentum
        &&& after.transform is Some
        &&& stepped(
            turn,
            shift,
            dt,
            before.transform->0,
            before.momentum->0,
            after.transform->0,
        )
    } else {
        after == before
    }
}

/// Whether `turn` and `shift` accept what a frame hands them for this
/// entity.
pub open spec fn admitted<F, G>(turn: F, shift: G, dt: u32, entity: Entity) -> bool where
    F: Fn(QuatBits, Vec3Bits, u32, u32) -> QuatBits,
    G: Fn(Vec3Bits, QuatBits, Vec3Bits, u32) -> Vec3Bits,
 {
    moving(entity) ==> steppable(turn, shift, dt, entity.transform->0, entity.momentum->0)
}

/// What one frame of `dt` seconds may make of a scene: the same entities,
/// each advanced on its own.
pub open spec fn frame<F, G>(turn: F, shift: G, dt: u32, before: Seq<Entity>, after: Seq<Entity>) -> bool where
    F: Fn(QuatBits, Vec3Bits, u32, u32) -> QuatBits,
    G: Fn(Vec3Bits, QuatBits, Vec3Bits, u32) -> Vec3Bits,
 {
    &&& after.len() == before.len()
    &&& forall|e: int|
        0 <= e < before.len() ==> advanced(turn, shift, dt, before[e], #[trigger] after[e])
}

/// A run of frames: `trace[k]` is the scene before the frame of `dts[k]`
/// seconds and `trace[k + 1]` the scene after it.
pub open spec fn frames<F, G>(turn: F, shift: G, dts: Seq<u32>, trace: Seq<Seq<Entity>>) -> bool where
    F: Fn(QuatBits, Vec3Bits, u32, u32) -> QuatBits,
    G: Fn(Vec3Bits, QuatBits, Vec3Bits, u32) -> Vec3Bits,
 {
    &&& trace.len() == dts.len() + 1
    &&& forall|k: int|
        0 <= k < dts.len() ==> frame(turn, shift, #[trigger] dts[k], trace[k], trace[k + 1])
}

/// The scene with the entities at `a` and `b` exchanged.
pub open spec fn exchanged(scene: Seq<Entity>, a: int, b: int) -> Seq<Entity> {
    scene.update(a, scene[b]).update(b, scene[a])
}

impl MomentumSystem {
    /// One step of `dt` seconds for one entity: the rotation first, where
    /// there is one, then the translation, which sees the new orientation.
    pub fn advance<F, G>(
        &self,
        transform: Transform,
        momentum: Momentum,
        dt: u32,
        turn: &F,
        shift: &G,
    ) -> (next: Transform) where
        F: Fn(QuatBits, Vec3Bits, u32, u32) -> QuatBits,
        G: Fn(Vec3Bits, QuatBits, Vec3Bits, u32) -> Vec3Bits,

        requires
            steppable(*turn, *shift, dt, transform, momentum),
        ensures
            stepped(*turn, *shift, dt, transform, momentum, next),
    {
        let axial = *momentum.rotation();
        let orientation = match axial {
            Spin::About { axis, rate } if axial.turns() => turn(
                transform.orientation,
                axis,
                rate,
                dt,
            ),
            _ => transform.orientation,
        };
        let translation = shift(transform.translation, orientation, *momentum.translation(), dt);
        Transform { translation, orientation, scale: transform.scale }
    }

    /// One frame of `dt` seconds: every entity with a transform and a
    /// momentum is advanced, no other entity changes, and none is added or
    /// removed.
    pub fn run<F, G>(&mut self, scene: &mut Scene, dt: u32, turn: F, shift: G) where
        F: Fn(QuatBits, Vec3Bits, u32, u32) -> QuatBits,
        G: Fn(Vec3Bits, QuatBits, Vec3Bits, u32) -> Vec3Bits,

        requires
            forall|e: int|
                0 <= e < old(scene)@.len() ==> admitted(turn, shift, dt, #[trigger] old(scene)@[e]),
        ensures
            frame(turn, shift, dt, old(scene)@, final(scene)@),
    {
        let ghost before = scene@;
        let n: usize = scene.len();
        let mut id: usize = 0;
        while id < n
            invariant
                id <= n,
                n == before.len(),
                scene@.len() == before.len(),
                forall|e: int| 0 <= e < n ==> admitted(turn, shift, dt, #[trigger] before[e]),
                forall|e: int| 0 <= e < id ==> advanced(turn, shift, dt, before[e], #[trigger] scene@[e]),
                forall|e: int| id <= e < n ==> #[trigger] scene@[e] == before[e],
            decreases n - id,
        {
            if let Some(entity) = scene.entity(id) {
                if let Some(transform) = entity.transform {
                    if let Some(momentum) = entity.momentum {
                        let next = self.advance(transform, momentum, dt, &turn, &shift);
                        scene.put_transform(id, next);
                    }
                }
            }
            id += 1;
        }
    }
}

/// Within a frame it does not matter which of two entities is advanced
/// first: the outcome of each is as admissible after the other has been
/// advanced as before, and the scene that results is the same.
pub proof fn lemma_either_order<F, G>(
    turn: F,
    shift: G,
    dt: u32,
    scene: Seq<Entity>,
    a: int,
    b: int,
    after_a: Entity,
    after_b: Entity,
) where
    F: Fn(QuatBits, Vec3Bits, u32, u32) -> QuatBits,
    G: Fn(Vec3Bits, QuatBits, Vec3Bits, u32) -> Vec3Bits,

    requires
        0 <= a < scene.len(),
        0 <= b < scene.len(),
        a != b,
        advanced(turn, shift, dt, scene[a], after_a),
        advanced(turn, shift, dt, scene[b], after_b),
    ensures
        advanced(turn, shift, dt, scene.update(a, after_a)[b], after_b),
        advanced(turn, shift, dt, scene.update(b, after_b)[a], after_a),
        scene.update(a, after_a).update(b, after_b) == scene.update(b, after_b).update(a, after_a),
{
    assert(scene.update(a, after_a).update(b, after_b) =~= scene.update(b, after_b).update(
        a,
        after_a,
    ));
}

/// Order independence: what a frame may make of an entity depends on that
/// entity alone. So where two entities change places in the scene, the
/// outcomes change places with them and nothing else differs.
pub proof fn lemma_exchange<F, G>(
    turn: F,
    shift: G,
    dt: u32,
    before: Seq<Entity>,
    after: Seq<Entity>,
    a: int,
    b: int,
) where
    F: Fn(QuatBits, Vec3Bits, u32, u32) -> QuatBits,
    G: Fn(Vec3Bits, QuatBits, Vec3Bits, u32) -> Vec3Bits,

    requires
        frame(turn, shift, dt, before, after),
        0 <= a < before.len(),
        0 <= b < before.len(),
    ensures
        frame(turn, shift, dt, exchanged(before, a, b), exchanged(after, a, b)),
{
    let before2 = exchanged(before, a, b);
    let after2 = exchanged(after, a, b);
    assert forall|e: int| 0 <= e < before2.len() implies advanced(
        turn,
        shift,
        dt,
        before2[e],
        #[trigger] after2[e],
    ) by {
        if e == b {
            assert(advanced(turn, shift, dt, before[a], after[a]));
        } else if e == a {
            assert(advanced(turn, shift, dt, before[b], after[b]));
        } else {
            assert(advanced(turn, shift, dt, before[e], after[e]));
        }
    }
}

/// Over any run of frames no entity is added or removed, none gains or
/// loses a component, and every momentum and every scale stays as it was.
pub proof fn lemma_frames_keep<F, G>(
    turn: F,
    shift: G,
    dts: Seq<u32>,
    trace: Seq<Seq<Entity>>,
    k: int,
    e: int,
) where
    F: Fn(QuatBits, Vec3Bits, u32, u32) -> QuatBits,
    G: Fn(Vec3Bits, QuatBits, Vec3Bits, u32) -> Vec3Bits,

    requires
        frames(turn, shift, dts, trace),
        0 <= k < trace.len(),
        0 <= e < trace[0].len(),
    ensures
        trace[k].len() == trace[0].len(),
        trace[k][e].momentum == trace[0][e].momentum,
        trace[k][e].transform is Some <==> trace[0][e].transform is Some,
        trace[0][e].transform is Some ==> trace[k][e].transform->0.scale
            == trace[0][e].transform->0.scale,
    decreases k,
{
    if k > 0 {
        lemma_frames_keep(turn, shift, dts, trace, k - 1, e);
        let dt = dts[k - 1];
        assert(frame(turn, shift, dt, trace[k - 1], trace[k - 1 + 1]));
        assert(advanced(turn, shift, dt, trace[k - 1][e], trace[k][e]));
    }
}

/// An entity that lacks a transform or a momentum is never touched: after
/// any number of frames, of any lengths, it is what it was at the start.
pub proof fn lemma_bystander_unchanged<F, G>(
    turn: F,
    shift: G,
    dts: Seq<u32>,
    trace: Seq<Seq<Entity>>,
    k: int,
    e: int,
) where
    F: Fn(QuatBits, Vec3Bits, u32, u32) -> QuatBits,
    G: Fn(Vec3Bits, QuatBits, Vec3Bits, u32) -> Vec3Bits,

    requires
        frames(turn, shift, dts, trace),
        0 <= k < trace.len(),
        0 <= e < trace[0].len(),
        !moving(trace[0][e]),
    ensures
        trace[k].len() == trace[0].len(),
        trace[k][e] == trace[0][e],
    decreases k,
{
    if k > 0 {
        lemma_bystander_unchanged(turn, shift, dts, trace, k - 1, e);
        let dt = dts[k - 1];
        assert(frame(turn, shift, dt, trace[k - 1], trace[k - 1 + 1]));
        assert(advanced(turn, shift, dt, trace[k - 1][e], trace[k][e]));
    }
}

/// An entity whose momentum has no rotation, or one at the rate zero,
/// keeps its orientation: after any number of frames, of any lengths, it
/// is turned as it was at the start.
pub proof fn lemma_still_keeps_orientation<F, G>(
    turn: F,
    shift: G,
    dts: Seq<u32>,
    trace: Seq<Seq<Entity>>,
    k: int,
    e: int,
) where
    F: Fn(QuatBits, Vec3Bits, u32, u32) -> QuatBits,
    G: Fn(Vec3Bits, QuatBits, Vec3Bits, u32) -> Vec3Bits,

    requires
        frames(turn, shift, dts, trace),
        0 <= k < trace.len(),
        0 <= e < trace[0].len(),
        moving(trace[0][e]),
        !trace[0][e].momentum->0.axial().turning(),
    ensures
        trace[k].len() == trace[0].len(),
        moving(trace[k][e]),
        trace[k][e].transform->0.orientation == trace[0][e].transform->0.orientation,
    decreases k,
{
    if k > 0 {
        lemma_still_keeps_orientation(turn, shift, dts, trace, k - 1, e);
        lemma_frames_keep(turn, shift, dts, trace, k - 1, e);
        let dt = dts[k - 1];
        assert(frame(turn, shift, dt, trace[k - 1], trace[k - 1 + 1]));
        assert(advanced(turn, shift, dt, trace[k - 1][e], trace[k][e]));
    }
}

} // verus!
