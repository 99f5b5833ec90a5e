//! Shared simulation state an entity's update may read and mutate.

use crate::entity::Entity;
use crate::entity::EntityType;
use crate::entity::Lifetime;
use crate::entity::Movement;
use crate::entity::Rect;
use crate::fixed::COORD_LIMIT;
use vstd::prelude::*;

verus! {

/// Snapshot of the directional input flags, read-only during one update.
#[derive(Clone, Copy, Debug, PartialEq, Eq, Structural)]
pub struct Input {
    pub up: bool,
    pub right: bool,
    pub down: bool,
    pub left: bool,
}

/// Constructs fully-initialized enemy bullets. The fields describe the bullet
/// every spawn produces; only the origin varies per call.
#[derive(Clone, Copy, Debug, PartialEq, Eq, Structural)]
pub struct Spawner {
    pub bullet_vx: i64,
    pub bullet_vy: i64,
    pub bullet_lifetime_ms: i64,
    pub bullet_hp: u8,
    pub bullet_dam: u8,
    pub bullet_bounds: Rect,
}

impl Spawner {
    /// The enemy bullet this spawner produces at origin `(x, y)`.
    pub open spec fn spec_spawn(self, x: i64, y: i64) -> Entity {
        Entity {
            entity_type: EntityType::EnemyBullet,
            x,
            y,
            hp: self.bullet_hp,
            dam: self.bullet_dam,
            vel: 0,
            movement: Movement::Linear(self.bullet_vx, self.bullet_vy),
            bounds: self.bullet_bounds,
            lifetime: Lifetime::Remaining(self.bullet_lifetime_ms),
            seed: 0,
            timer: 0,
            bullet_cooldown: 0,
            angle: 0,
        }
    }

    /// Construct and return an enemy bullet at origin `(x, y)`.
    pub fn spawn_enemy_bullet(&self, x: i64, y: i64) -> (e: Entity)
        ensures
            e == self.spec_spawn(x, y),
    {
        Entity {
            entity_type: EntityType::EnemyBullet,
            x,
            y,
            hp: self.bullet_hp,
            dam: self.bullet_dam,
            vel: 0,
            movement: Movement::Linear(self.bullet_vx, self.bullet_vy),
            bounds: self.bullet_bounds,
            lifetime: Lifetime::Remaining(self.bullet_lifetime_ms),
            seed: 0,
            timer: 0,
            bullet_cooldown: 0,
            angle: 0,
        }
    }
}

/// The world context an update call sees: input snapshot, window dimensions,
/// the enemy-bullet cooldown configuration, the spawner, and the shared
/// entity collection (append-only from the update's perspective).
///
/// Window dimensions are fixed-point sub-units, like entity coordinates.
pub struct World {
    pub input: Input,
    pub window_width: i64,
    pub window_height: i64,
    pub enemy_bullet_cooldown: i64,
    pub spawner: Spawner,
    pub entities: Vec<Entity>,
}

impl World {
    /// Configuration sanity: window dimensions within the coordinate range
    /// and a non-negative configured cooldown.
    pub open spec fn wf(self) -> bool {
        &&& 0 <= self.window_width <= COORD_LIMIT
        &&& 0 <= self.window_height <= COORD_LIMIT
        &&& 0 <= self.enemy_bullet_cooldown
    }
}

} // verus!
