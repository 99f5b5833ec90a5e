//! The entity record and its closed variant sets.

use crate::fixed::COORD_LIMIT;
use crate::fixed::SCALE;
use vstd::prelude::*;

verus! {

/// Which reactive-behaviour branch an entity runs during its update.
/// Immutable after construction.
#[derive(Clone, Copy, Debug, PartialEq, Eq, Hash, Structural)]
pub enum EntityType {
    Boss,
    EnemyBullet,
    PlayerBullet,
    Enemy,
    Player,
    Powerup,
}

/// How long an entity should remain active. `Remaining` counts signed
/// milliseconds down every tick and may go negative; expiry sweeping is an
/// external collaborator's job.
#[derive(Clone, Copy, Debug, PartialEq, Eq, Structural)]
pub enum Lifetime {
    Forever,
    Remaining(i64),
}

/// The motion policy an entity carries.
///
/// - `Static`: no displacement.
/// - `Linear(vx, vy)`: constant velocity, fixed-point sub-units per second.
/// - `Generated`: the per-tick displacement rate comes from a caller-supplied
///   procedural strategy, evaluated outside this core from the entity's age,
///   a random source and its fixed seed; `update` receives the evaluated
///   rate and consumes it exactly as it would a `Linear` vector.
#[derive(Clone, Copy, Debug, PartialEq, Eq, Structural)]
pub enum Movement {
    Static,
    Linear(i64, i64),
    Generated,
}

/// An axis-aligned rectangle: an offset from the owning entity's position
/// plus a size, all in fixed-point sub-units. Used for screen clamping.
#[derive(Clone, Copy, Debug, PartialEq, Eq, Structural)]
pub struct Rect {
    pub x: i64,
    pub y: i64,
    pub w: i64,
    pub h: i64,
}

impl Rect {
    /// Offsets within the coordinate range, sizes non-negative and bounded.
    pub open spec fn wf(self) -> bool {
        &&& -COORD_LIMIT <= self.x <= COORD_LIMIT
        &&& -COORD_LIMIT <= self.y <= COORD_LIMIT
        &&& 0 <= self.w <= COORD_LIMIT
        &&& 0 <= self.h <= COORD_LIMIT
    }
}

/// One simulated game object.
///
/// Spatial fields (`x`, `y`, `vel`, `angle`, the `bounds` rectangle and
/// `Linear` velocity components) are fixed-point values with
/// [`SCALE`] sub-units per pixel. `seed` is a per-entity constant in
/// `[-SCALE, SCALE]` (standing for `[-1, 1]`), fixed at spawn and handed to
/// the procedural motion strategy; this core never changes it.
#[derive(Clone, Copy, Debug, PartialEq, Eq, Structural)]
pub struct Entity {
    pub entity_type: EntityType,
    pub x: i64,
    pub y: i64,
    pub hp: u8,
    pub dam: u8,
    pub vel: i64,
    pub movement: Movement,
    pub bounds: Rect,
    pub lifetime: Lifetime,
    pub seed: i64,
    pub timer: u64,
    pub bullet_cooldown: i64,
    pub angle: i64,
}

impl Entity {
    /// Spatial well-formedness: every fixed-point quantity the update step
    /// multiplies or adds stays within [`COORD_LIMIT`], so one step's
    /// arithmetic fits in 64 bits.
    pub open spec fn wf(self) -> bool {
        &&& -COORD_LIMIT <= self.x <= COORD_LIMIT
        &&& -COORD_LIMIT <= self.y <= COORD_LIMIT
        &&& -COORD_LIMIT <= self.vel <= COORD_LIMIT
        &&& (self.movement matches Movement::Linear(vx, vy) ==> -COORD_LIMIT <= vx
            <= COORD_LIMIT && -COORD_LIMIT <= vy <= COORD_LIMIT)
        &&& self.bounds.wf()
        &&& -COORD_LIMIT <= self.angle <= COORD_LIMIT
        &&& -SCALE <= self.seed <= SCALE
    }

    /// Shift the entity's position by a displacement.
    pub fn translate(&mut self, dx: i64, dy: i64)
        requires
            i64::MIN <= old(self).x + dx <= i64::MAX,
            i64::MIN <= old(self).y + dy <= i64::MAX,
        ensures
            final(self).x == old(self).x + dx,
            final(self).y == old(self).y + dy,
            final(self).entity_type == old(self).entity_type,
            final(self).hp == old(self).hp,
            final(self).dam == old(self).dam,
            final(self).vel == old(self).vel,
            final(self).movement == old(self).movement,
            final(self).bounds == old(self).bounds,
            final(self).lifetime == old(self).lifetime,
            final(self).seed == old(self).seed,
            final(self).timer == old(self).timer,
            final(self).bullet_cooldown == old(self).bullet_cooldown,
            final(self).angle == old(self).angle,
    {
        self.x = self.x + dx;
        self.y = self.y + dy;
    }
}

} // verus!
