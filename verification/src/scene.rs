//! The scene: the ordered collection of entities and the protocol that
//! advances every one of them exactly once per logical tick.

use crate::physics::{Context, Physics, Viewport};
use crate::ticker::Ticker;
use vstd::prelude::*;

verus! {

/// One visual element: a geometry snapshot and the update rule it carries.
/// The optional animation context travels inside the snapshot.
#[derive(PartialEq, Eq, Debug)]
pub struct Entity {
    pub physics: Physics,
    pub ticker: Ticker,
}

impl Entity {
    /// Everything one tick of this entity relies on.
    pub open spec fn tick_ok(self) -> bool {
        self.ticker.tick_ok(self.physics)
    }

    /// The mathematical model of one tick of this entity: the rule rewrites
    /// the snapshot and is itself untouched.
    pub open spec fn stepped(self, viewport: Viewport) -> Entity {
        Entity { physics: self.ticker.tick_spec(self.physics, viewport), ticker: self.ticker }
    }
}

/// The model of one scene tick: every entity advances by its own rule,
/// from its own pre-tick snapshot.
pub open spec fn scene_step(entities: Seq<Entity>, viewport: Viewport) -> Seq<Entity> {
    entities.map(|i: int, e: Entity| e.stepped(viewport))
}

/// The scene owns the entities in stable insertion order; it never inspects
/// a rule or a context beyond invoking the tick contract.
#[derive(PartialEq, Eq, Debug)]
pub struct Scene {
    pub entities: Vec<Entity>,
    pub viewport: Viewport,
}

impl Scene {
    /// Everything one tick of the whole scene relies on: every entity can
    /// take its step.
    pub open spec fn all_tick_ok(self) -> bool {
        forall|i: int| 0 <= i < self.entities@.len() ==> (#[trigger] self.entities@[i]).tick_ok()
    }

    /// An empty scene over the given viewport.
    pub fn new(viewport: Viewport) -> (s: Scene)
        ensures
            s.entities@.len() == 0,
            s.viewport == viewport,
    {
        Scene { entities: Vec::new(), viewport }
    }

    /// Register one entity at the end of the insertion order, from its
    /// initial geometry, its update rule and its optional initial
    /// animation state.
    pub fn add_entity(
        &mut self,
        x: i64,
        y: i64,
        r: i64,
        vx: i64,
        vy: i64,
        ticker: Ticker,
        context: Option<Context>,
    )
        requires
            ticker.wf(),
            ticker.accepts_context(context),
        ensures
            final(self).viewport == old(self).viewport,
            final(self).entities@ == old(self).entities@.push(
                Entity { physics: (Physics { x, y, r, vx, vy, context }), ticker },
            ),
    {
        self.entities.push(Entity { physics: Physics { x, y, r, vx, vy, context }, ticker });
    }

    /// How many entities are registered.
    pub fn len(&self) -> (n: usize)
        ensures
            n == self.entities@.len(),
    {
        self.entities.len()
    }

    /// The current geometry snapshot of one entity, for the renderer to
    /// read back after a tick.
    pub fn physics_at(&self, i: usize) -> (p: Physics)
        requires
            i < self.entities@.len(),
        ensures
            p == self.entities@[i as int].physics,
    {
        self.entities[i].physics
    }

    /// Advance every entity exactly once, in insertion order. No entity
    /// sees another's post-tick state during the pass, and none is added
    /// or removed.
    pub fn tick(&mut self)
        requires
            old(self).all_tick_ok(),
        ensures
            final(self).viewport == old(self).viewport,
            final(self).entities@ == scene_step(old(self).entities@, old(self).viewport),
    {
        let ghost entities0 = self.entities@;
        let viewport = self.viewport;
        let n = self.entities.len();
        let mut i: usize = 0;
        while i < n
            invariant
                i <= n,
                n == self.entities@.len(),
                self.viewport == viewport,
                entities0.len() == n,
                forall|j: int| i <= j < n ==> self.entities@[j] == entities0[j],
                forall|j: int|
                    0 <= j < i ==> self.entities@[j] == (#[trigger] entities0[j]).stepped(viewport),
                forall|j: int| 0 <= j < n ==> (#[trigger] entities0[j]).tick_ok(),
            decreases n - i,
        {
            assert(self.entities@[i as int] == entities0[i as int]);
            assert(entities0[i as int].tick_ok());
            let e = &mut self.entities[i];
            let next = e.ticker.tick(e.physics, &viewport);
            e.physics = next;
            i = i + 1;
        }
        assert(self.entities@ =~= scene_step(entities0, viewport));
    }
}

/// The independence law of the scene protocol: a scene tick keeps the
/// entity count, and each entity's post-tick state is a function of its own
/// pre-tick state alone, so two consecutive ticks compose per entity with
/// no hidden order-dependence across entities.
pub proof fn lemma_scene_step_independent(entities: Seq<Entity>, viewport: Viewport)
    ensures
        scene_step(entities, viewport).len() == entities.len(),
        forall|i: int|
            0 <= i < entities.len() ==> scene_step(entities, viewport)[i] == (
            #[trigger] entities[i]).stepped(viewport),
        forall|i: int|
            0 <= i < entities.len() ==> scene_step(scene_step(entities, viewport), viewport)[i]
                == (#[trigger] entities[i]).stepped(viewport).stepped(viewport),
{
}

} // verus!
