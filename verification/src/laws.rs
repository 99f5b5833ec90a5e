//! The simulation's general laws, stated over the same specification
//! functions that [`crate::update`]'s contracts use and proved once for all
//! inputs.

use crate::entity::Entity;
use crate::entity::EntityType;
use crate::entity::Lifetime;
use crate::entity::Movement;
use crate::update::angle_after;
use crate::update::cooldown_after;
use crate::update::fires;
use crate::update::lifetime_after;
use crate::update::motion_step;
use crate::update::pos_x_after;
use crate::update::pos_y_after;
use crate::update::SPIN_RATE;
use crate::world::World;
use vstd::arithmetic::div_mod::lemma_div_of0;
use vstd::prelude::*;

verus! {

/// An entity with `Static` movement does not move during an update, for any
/// time delta. (The player is the one exception: its position also answers
/// the input flags and the screen clamp.)
pub proof fn lemma_static_entity_stays(
    e: Entity,
    delta_ms: u64,
    gen_dx: i64,
    gen_dy: i64,
    w: World,
)
    requires
        e.movement is Static,
        e.entity_type != EntityType::Player,
    ensures
        pos_x_after(e, delta_ms as int, gen_dx, w) == e.x,
        pos_y_after(e, delta_ms as int, gen_dy, w) == e.y,
{
    lemma_div_of0(1000);
}

/// An entity with `Linear(vx, vy)` movement is displaced by exactly
/// `vx * delta_ms / 1000` and `vy * delta_ms / 1000` during an update.
/// (Again except the player, whose position also answers input and clamp.)
pub proof fn lemma_linear_displacement(
    e: Entity,
    vx: i64,
    vy: i64,
    delta_ms: u64,
    gen_dx: i64,
    gen_dy: i64,
    w: World,
)
    requires
        e.movement == Movement::Linear(vx, vy),
        e.entity_type != EntityType::Player,
    ensures
        pos_x_after(e, delta_ms as int, gen_dx, w) == e.x + motion_step(
            vx as int,
            delta_ms as int,
        ),
        pos_y_after(e, delta_ms as int, gen_dy, w) == e.y + motion_step(
            vy as int,
            delta_ms as int,
        ),
{
}

/// The bullet cooldown is never negative after an update, for any starting
/// value and any time delta, as long as the configured reset value is
/// non-negative.
pub proof fn lemma_cooldown_never_negative(e: Entity, delta_ms: u64, config: i64)
    requires
        0 <= config,
    ensures
        cooldown_after(e, delta_ms as int, config as int) >= 0,
{
}

/// A `Remaining(r)` lifetime becomes exactly `Remaining(r - delta_ms)` after
/// an update: no clamping, the count may go negative.
pub proof fn lemma_lifetime_counts_down(r: i64, delta_ms: u64)
    requires
        i64::MIN + delta_ms <= r,
    ensures
        lifetime_after(Lifetime::Remaining(r), delta_ms as int) matches Lifetime::Remaining(v)
            && v == r - delta_ms,
{
}

/// A player with all four directional flags clear does not move during an
/// update, whatever its speed — provided its own motion policy is `Static`
/// and its bounding rectangle already lies inside the window (otherwise the
/// screen clamp itself would move it).
pub proof fn lemma_idle_player_stays(
    e: Entity,
    delta_ms: u64,
    gen_dx: i64,
    gen_dy: i64,
    w: World,
)
    requires
        e.entity_type == EntityType::Player,
        e.movement is Static,
        !w.input.up && !w.input.right && !w.input.down && !w.input.left,
        0 <= e.x + e.bounds.x,
        e.x + e.bounds.x + e.bounds.w <= w.window_width,
        0 <= e.y + e.bounds.y,
        e.y + e.bounds.y + e.bounds.h <= w.window_height,
    ensures
        pos_x_after(e, delta_ms as int, gen_dx, w) == e.x,
        pos_y_after(e, delta_ms as int, gen_dy, w) == e.y,
{
    lemma_div_of0(1000);
}

/// After an update the player's bounding rectangle lies within
/// `[0, window_width] x [0, window_height]`, for any pre-update position —
/// provided the rectangle fits in the window at all (when it does not, the
/// two per-axis corrections conflict and the later one wins).
pub proof fn lemma_player_stays_clamped(
    e: Entity,
    delta_ms: u64,
    gen_dx: i64,
    gen_dy: i64,
    w: World,
)
    requires
        e.entity_type == EntityType::Player,
        0 <= e.bounds.w <= w.window_width,
        0 <= e.bounds.h <= w.window_height,
    ensures
        0 <= pos_x_after(e, delta_ms as int, gen_dx, w) + e.bounds.x,
        pos_x_after(e, delta_ms as int, gen_dx, w) + e.bounds.x + e.bounds.w <= w.window_width,
        0 <= pos_y_after(e, delta_ms as int, gen_dy, w) + e.bounds.y,
        pos_y_after(e, delta_ms as int, gen_dy, w) + e.bounds.y + e.bounds.h <= w.window_height,
{
}

/// An enemy whose cooldown has run out fires this tick — `update` then
/// appends exactly one bullet to the shared collection — and its cooldown is
/// reset to the configured value.
pub proof fn lemma_enemy_fires(e: Entity, delta_ms: u64, config: i64)
    requires
        e.entity_type == EntityType::Enemy,
        e.bullet_cooldown == 0,
    ensures
        fires(e, delta_ms as int),
        cooldown_after(e, delta_ms as int, config as int) == config,
{
}

/// An enemy whose cooldown exceeds the time delta does not fire — `update`
/// appends nothing — and its cooldown decreases by exactly the delta.
pub proof fn lemma_enemy_holds_fire(e: Entity, delta_ms: u64, config: i64)
    requires
        e.entity_type == EntityType::Enemy,
        e.bullet_cooldown > delta_ms,
    ensures
        !fires(e, delta_ms as int),
        cooldown_after(e, delta_ms as int, config as int) == e.bullet_cooldown - delta_ms,
{
}

/// A player bullet's angle grows by exactly `SPIN_RATE` sub-units (one
/// hundredth of an angle unit) per elapsed millisecond.
pub proof fn lemma_player_bullet_spin(e: Entity, delta_ms: u64)
    requires
        e.entity_type == EntityType::PlayerBullet,
    ensures
        angle_after(e, delta_ms as int) == e.angle + delta_ms * SPIN_RATE,
{
}

} // verus!
