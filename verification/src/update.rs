//! The per-tick entity update algorithm and its specification.
//!
//! One call advances a single entity by `delta_ms` milliseconds, in this
//! order: age accounting, lifetime countdown, cooldown countdown with a floor
//! of zero, movement application, then the kind-specific reactive branch
//! (player input response and screen clamping, enemy bullet spawning, player
//! bullet spin).

use crate::entity::Entity;
use crate::entity::EntityType;
use crate::entity::Lifetime;
use crate::entity::Movement;
use crate::fixed::lemma_mul_div_bound;
use crate::fixed::mul_div;
use crate::fixed::mul_div_trunc;
use crate::fixed::COORD_LIMIT;
use crate::fixed::DELTA_LIMIT;
use crate::fixed::STEP_LIMIT;
use crate::world::Input;
use crate::world::World;
use vstd::prelude::*;

verus! {

/// Numerator of the unit-diagonal normalization factor 0.70710678.
pub const DIAG_NUM: u64 = 70_710_678;

/// Denominator of the unit-diagonal normalization factor.
pub const DIAG_DEN: u64 = 100_000_000;

/// Angle gained per millisecond by a player bullet, in fixed-point sub-units:
/// one hundredth of an angle unit, `SCALE / 100`.
pub const SPIN_RATE: i64 = 10_000;

/// The displacement-rate x-component an entity's motion policy yields:
/// nothing for `Static`, the fixed vector for `Linear`, and the
/// caller-evaluated procedural rate for `Generated`.
pub open spec fn rate_x(m: Movement, gen_dx: i64) -> int {
    match m {
        Movement::Static => 0,
        Movement::Linear(vx, _) => vx as int,
        Movement::Generated => gen_dx as int,
    }
}

/// The displacement-rate y-component of an entity's motion policy.
pub open spec fn rate_y(m: Movement, gen_dy: i64) -> int {
    match m {
        Movement::Static => 0,
        Movement::Linear(_, vy) => vy as int,
        Movement::Generated => gen_dy as int,
    }
}

/// A rate (fixed-point sub-units per second) scaled by a time delta in
/// milliseconds, with truncating division.
pub open spec fn motion_step(rate: int, delta: int) -> int {
    mul_div(rate, delta, 1000)
}

/// One axis component of a diagonal step: the full step scaled by
/// 0.70710678, with truncating division.
pub open spec fn diag_step(v: int) -> int {
    mul_div(v, DIAG_NUM as int, DIAG_DEN as int)
}

/// The player's input-driven x-displacement for a per-tick step of `v`:
/// full speed on the cardinal directions, the diagonal fraction on the four
/// diagonal combinations, and no movement for any other flag combination
/// (none pressed, or opposite pairs cancelling).
pub open spec fn input_dx(inp: Input, v: int) -> int {
    let d = diag_step(v);
    if inp.up && !inp.right && !inp.down && !inp.left {
        0
    } else if inp.up && inp.right && !inp.down && !inp.left {
        d
    } else if !inp.up && inp.right && !inp.down && !inp.left {
        v
    } else if !inp.up && inp.right && inp.down && !inp.left {
        d
    } else if !inp.up && !inp.right && inp.down && !inp.left {
        0
    } else if !inp.up && !inp.right && inp.down && inp.left {
        -d
    } else if !inp.up && !inp.right && !inp.down && inp.left {
        -v
    } else if inp.up && !inp.right && !inp.down && inp.left {
        -d
    } else {
        0
    }
}

/// The player's input-driven y-displacement (screen y grows downward, so
/// `up` is negative).
pub open spec fn input_dy(inp: Input, v: int) -> int {
    let d = diag_step(v);
    if inp.up && !inp.right && !inp.down && !inp.left {
        -v
    } else if inp.up && inp.right && !inp.down && !inp.left {
        -d
    } else if !inp.up && inp.right && !inp.down && !inp.left {
        0
    } else if !inp.up && inp.right && inp.down && !inp.left {
        d
    } else if !inp.up && !inp.right && inp.down && !inp.left {
        v
    } else if !inp.up && !inp.right && inp.down && inp.left {
        d
    } else if !inp.up && !inp.right && !inp.down && inp.left {
        0
    } else if inp.up && !inp.right && !inp.down && inp.left {
        -d
    } else {
        0
    }
}

/// One axis of the screen clamp: snap the low edge of the bounding interval
/// (position `p` plus offset `off`, length `len`) to 0 if it lies below 0,
/// then snap the high edge to `limit` if it lies beyond; the later
/// correction wins when both conflict.
pub open spec fn clamp_axis(p: int, off: int, len: int, limit: int) -> int {
    let low = if p + off < 0 {
        -off
    } else {
        p
    };
    if low + off + len > limit {
        limit - off - len
    } else {
        low
    }
}

/// The lifetime after a tick: `Remaining` counts down by the delta with no
/// clamping (it may go negative), `Forever` is unchanged.
pub open spec fn lifetime_after(l: Lifetime, delta: int) -> Lifetime {
    match l {
        Lifetime::Forever => Lifetime::Forever,
        Lifetime::Remaining(r) => Lifetime::Remaining((r - delta) as i64),
    }
}

/// Whether this tick makes the entity fire an enemy bullet: only the
/// `Enemy` kind fires, exactly when its cooldown has run out.
pub open spec fn fires(e: Entity, delta: int) -> bool {
    e.entity_type == EntityType::Enemy && e.bullet_cooldown - delta <= 0
}

/// The bullet cooldown after a tick: decremented by the delta and floored at
/// zero; an enemy that fires has it reset to the configured cooldown.
pub open spec fn cooldown_after(e: Entity, delta: int, config: int) -> int {
    if fires(e, delta) {
        config
    } else if e.bullet_cooldown - delta < 0 {
        0
    } else {
        e.bullet_cooldown - delta
    }
}

/// The visual rotation after a tick: player bullets spin by `SPIN_RATE` per
/// millisecond, every other kind keeps its angle.
pub open spec fn angle_after(e: Entity, delta: int) -> int {
    if e.entity_type == EntityType::PlayerBullet {
        e.angle + delta * SPIN_RATE
    } else {
        e.angle as int
    }
}

/// The x-position after a tick: the motion policy's displacement, then, for
/// the player only, the input-driven displacement followed by the screen
/// clamp against the window width.
pub open spec fn pos_x_after(e: Entity, delta: int, gen_dx: i64, w: World) -> int {
    let moved = e.x + motion_step(rate_x(e.movement, gen_dx), delta);
    if e.entity_type == EntityType::Player {
        let stepped = moved + input_dx(w.input, motion_step(e.vel as int, delta));
        clamp_axis(stepped, e.bounds.x as int, e.bounds.w as int, w.window_width as int)
    } else {
        moved
    }
}

/// The y-position after a tick, clamped against the window height for the
/// player.
pub open spec fn pos_y_after(e: Entity, delta: int, gen_dy: i64, w: World) -> int {
    let moved = e.y + motion_step(rate_y(e.movement, gen_dy), delta);
    if e.entity_type == EntityType::Player {
        let stepped = moved + input_dy(w.input, motion_step(e.vel as int, delta));
        clamp_axis(stepped, e.bounds.y as int, e.bounds.h as int, w.window_height as int)
    } else {
        moved
    }
}

/// What a caller of [`Entity::update`] must establish: well-formed entity
/// and world, a bounded time delta, counters far enough from the integer
/// limits that one tick cannot overflow them, and a procedural rate within
/// the coordinate range.
pub open spec fn update_pre(e: Entity, delta_ms: u64, gen_dx: i64, gen_dy: i64, w: World) -> bool {
    &&& e.wf()
    &&& w.wf()
    &&& delta_ms <= DELTA_LIMIT
    &&& e.timer + delta_ms <= u64::MAX
    &&& (e.lifetime matches Lifetime::Remaining(r) ==> i64::MIN + delta_ms <= r)
    &&& i64::MIN + delta_ms <= e.bullet_cooldown
    &&& -COORD_LIMIT <= gen_dx <= COORD_LIMIT
    &&& -COORD_LIMIT <= gen_dy <= COORD_LIMIT
}

/// A rate within the coordinate range, scaled by a bounded delta, stays
/// within the single-step displacement limit.
fn motion_step_exec(rate: i64, delta_ms: u64) -> (r: i64)
    requires
        -COORD_LIMIT <= rate <= COORD_LIMIT,
        delta_ms <= DELTA_LIMIT,
    ensures
        r == motion_step(rate as int, delta_ms as int),
        -STEP_LIMIT <= r <= STEP_LIMIT,
{
    proof {
        lemma_mul_div_bound(
            rate as int,
            delta_ms as int,
            1000,
            COORD_LIMIT as int,
            DELTA_LIMIT as int,
        );
        assert((COORD_LIMIT as int * DELTA_LIMIT as int) / 1000 == STEP_LIMIT as int);
    }
    mul_div_trunc(rate, delta_ms, 1000)
}

/// The diagonal fraction of a bounded step is itself a bounded step.
fn diag_step_exec(v: i64) -> (r: i64)
    requires
        -STEP_LIMIT <= v <= STEP_LIMIT,
    ensures
        r == diag_step(v as int),
        -STEP_LIMIT <= r <= STEP_LIMIT,
{
    proof {
        lemma_mul_div_bound(v as int, DIAG_NUM as int, DIAG_DEN as int, STEP_LIMIT as int, DIAG_NUM as int);
        assert((STEP_LIMIT as int * DIAG_NUM as int) / DIAG_DEN as int <= STEP_LIMIT as int);
    }
    mul_div_trunc(v, DIAG_NUM, DIAG_DEN)
}

impl Entity {
    /// Age, lifetime and cooldown accounting for one tick: the timer grows
    /// by the delta, a `Remaining` lifetime counts down without clamping,
    /// and the cooldown counts down floored at zero.
    fn tick_timers(&mut self, delta_ms: u64)
        requires
            delta_ms <= DELTA_LIMIT,
            old(self).timer + delta_ms <= u64::MAX,
            old(self).lifetime matches Lifetime::Remaining(r) ==> i64::MIN + delta_ms <= r,
            i64::MIN + delta_ms <= old(self).bullet_cooldown,
        ensures
            final(self).timer == old(self).timer + delta_ms,
            final(self).lifetime == lifetime_after(old(self).lifetime, delta_ms as int),
            final(self).bullet_cooldown == if old(self).bullet_cooldown - delta_ms < 0 {
                0int
            } else {
                old(self).bullet_cooldown - delta_ms
            },
            final(self).entity_type == old(self).entity_type,
            final(self).x == old(self).x,
            final(self).y == old(self).y,
            final(self).hp == old(self).hp,
            final(self).dam == old(self).dam,
            final(self).vel == old(self).vel,
            final(self).movement == old(self).movement,
            final(self).bounds == old(self).bounds,
            final(self).seed == old(self).seed,
            final(self).angle == old(self).angle,
    {
        self.timer = self.timer + delta_ms;
        self.lifetime = match self.lifetime {
            Lifetime::Forever => Lifetime::Forever,
            Lifetime::Remaining(r) => Lifetime::Remaining(r - (delta_ms as i64)),
        };
        self.bullet_cooldown = self.bullet_cooldown - (delta_ms as i64);
        if self.bullet_cooldown < 0 {
            self.bullet_cooldown = 0;
        }
    }

    /// Apply the motion policy's displacement for one tick.
    fn apply_movement(&mut self, delta_ms: u64, gen_dx: i64, gen_dy: i64)
        requires
            delta_ms <= DELTA_LIMIT,
            -COORD_LIMIT <= old(self).x <= COORD_LIMIT,
            -COORD_LIMIT <= old(self).y <= COORD_LIMIT,
            old(self).movement matches Movement::Linear(vx, vy) ==> -COORD_LIMIT <= vx
                <= COORD_LIMIT && -COORD_LIMIT <= vy <= COORD_LIMIT,
            -COORD_LIMIT <= gen_dx <= COORD_LIMIT,
            -COORD_LIMIT <= gen_dy <= COORD_LIMIT,
        ensures
            final(self).x == old(self).x + motion_step(
                rate_x(old(self).movement, gen_dx),
                delta_ms as int,
            ),
            final(self).y == old(self).y + motion_step(
                rate_y(old(self).movement, gen_dy),
                delta_ms as int,
            ),
            -(COORD_LIMIT + STEP_LIMIT) <= final(self).x <= COORD_LIMIT + STEP_LIMIT,
            -(COORD_LIMIT + STEP_LIMIT) <= final(self).y <= COORD_LIMIT + STEP_LIMIT,
            final(self).entity_type == old(self).entity_type,
            final(self).hp == old(self).hp,
            final(self).dam == old(self).dam,
            final(self).vel == old(self).vel,
            final(self).movement == old(self).movement,
            final(self).bounds == old(self).bounds,
            final(self).lifetime == old(self).lifetime,
            final(self).seed == old(self).seed,
            final(self).timer == old(self).timer,
            final(self).bullet_cooldown == old(self).bullet_cooldown,
            final(self).angle == old(self).angle,
    {
        match self.movement {
            Movement::Static => {},
            Movement::Linear(vx, vy) => {
                let dx = motion_step_exec(vx, delta_ms);
                let dy = motion_step_exec(vy, delta_ms);
                self.translate(dx, dy);
            },
            Movement::Generated => {
                let dx = motion_step_exec(gen_dx, delta_ms);
                let dy = motion_step_exec(gen_dy, delta_ms);
                self.translate(dx, dy);
            },
        }
    }

    /// Combine the four directional flags into one of the eight discrete
    /// directions (or no movement) and displace the entity accordingly.
    fn player_input_step(&mut self, delta_ms: u64, inp: Input)
        requires
            delta_ms <= DELTA_LIMIT,
            -COORD_LIMIT <= old(self).vel <= COORD_LIMIT,
            -(COORD_LIMIT + STEP_LIMIT) <= old(self).x <= COORD_LIMIT + STEP_LIMIT,
            -(COORD_LIMIT + STEP_LIMIT) <= old(self).y <= COORD_LIMIT + STEP_LIMIT,
        ensures
            final(self).x == old(self).x + input_dx(
                inp,
                motion_step(old(self).vel as int, delta_ms as int),
            ),
            final(self).y == old(self).y + input_dy(
                inp,
                motion_step(old(self).vel as int, delta_ms as int),
            ),
            -(COORD_LIMIT + 2 * STEP_LIMIT) <= final(self).x <= COORD_LIMIT + 2 * STEP_LIMIT,
            -(COORD_LIMIT + 2 * STEP_LIMIT) <= final(self).y <= COORD_LIMIT + 2 * STEP_LIMIT,
            final(self).entity_type == old(self).entity_type,
            final(self).hp == old(self).hp,
            final(self).dam == old(self).dam,
            final(self).vel == old(self).vel,
            final(self).movement == old(self).movement,
            final(self).bounds == old(self).bounds,
            final(self).lifetime == old(self).lifetime,
            final(self).seed == old(self).seed,
            final(self).timer == old(self).timer,
            final(self).bullet_cooldown == old(self).bullet_cooldown,
            final(self).angle == old(self).angle,
    {
        let step = motion_step_exec(self.vel, delta_ms);
        let d = diag_step_exec(step);
        match (inp.up, inp.right, inp.down, inp.left) {
            (true, false, false, false) => self.translate(0, -step),
            (true, true, false, false) => self.translate(d, -d),
            (false, true, false, false) => self.translate(step, 0),
            (false, true, true, false) => self.translate(d, d),
            (false, false, true, false) => self.translate(0, step),
            (false, false, true, true) => self.translate(-d, d),
            (false, false, false, true) => self.translate(-step, 0),
            (true, false, false, true) => self.translate(-d, -d),
            _ => {},
        }
    }

    /// Snap the entity's bounding rectangle back inside the window, one axis
    /// at a time: the left/top check first, then the right/bottom check,
    /// the later correction winning if both conflict.
    fn clamp_to_window(&mut self, width: i64, height: i64)
        requires
            old(self).bounds.wf(),
            0 <= width <= COORD_LIMIT,
            0 <= height <= COORD_LIMIT,
            -(COORD_LIMIT + 2 * STEP_LIMIT) <= old(self).x <= COORD_LIMIT + 2 * STEP_LIMIT,
            -(COORD_LIMIT + 2 * STEP_LIMIT) <= old(self).y <= COORD_LIMIT + 2 * STEP_LIMIT,
        ensures
            final(self).x == clamp_axis(
                old(self).x as int,
                old(self).bounds.x as int,
                old(self).bounds.w as int,
                width as int,
            ),
            final(self).y == clamp_axis(
                old(self).y as int,
                old(self).bounds.y as int,
                old(self).bounds.h as int,
                height as int,
            ),
            final(self).entity_type == old(self).entity_type,
            final(self).hp == old(self).hp,
            final(self).dam == old(self).dam,
            final(self).vel == old(self).vel,
            final(self).movement == old(self).movement,
            final(self).bounds == old(self).bounds,
            final(self).lifetime == old(self).lifetime,
            final(self).seed == old(self).seed,
            final(self).timer == old(self).timer,
            final(self).bullet_cooldown == old(self).bullet_cooldown,
            final(self).angle == old(self).angle,
    {
        if self.x + self.bounds.x < 0 {
            self.x = 0 - self.bounds.x;
        }
        if self.x + self.bounds.x + self.bounds.w > width {
            self.x = width - (self.bounds.x + self.bounds.w);
        }
        if self.y + self.bounds.y < 0 {
            self.y = 0 - self.bounds.y;
        }
        if self.y + self.bounds.y + self.bounds.h > height {
            self.y = height - (self.bounds.y + self.bounds.h);
        }
    }

    /// Advance this entity by `delta_ms` milliseconds against the shared
    /// world state.
    ///
    /// The entity ages, its lifetime and cooldown count down (the cooldown
    /// floored at zero), its motion policy displaces it, and then its kind's
    /// reactive branch runs. For `Generated` movement the caller supplies
    /// the procedural strategy's evaluated rate `(gen_dx, gen_dy)`; other
    /// policies ignore it. The only shared state the call mutates beyond the
    /// entity itself is an append of at most one enemy bullet to
    /// `world.entities`, exactly when [`fires`] holds.
    pub fn update(&mut self, delta_ms: u64, gen_dx: i64, gen_dy: i64, world: &mut World)
        requires
            update_pre(*old(self), delta_ms, gen_dx, gen_dy, *old(world)),
        ensures
            final(self).entity_type == old(self).entity_type,
            final(self).hp == old(self).hp,
            final(self).dam == old(self).dam,
            final(self).vel == old(self).vel,
            final(self).movement == old(self).movement,
            final(self).bounds == old(self).bounds,
            final(self).seed == old(self).seed,
            final(self).timer == old(self).timer + delta_ms,
            final(self).lifetime == lifetime_after(old(self).lifetime, delta_ms as int),
            final(self).bullet_cooldown == cooldown_after(
                *old(self),
                delta_ms as int,
                old(world).enemy_bullet_cooldown as int,
            ),
            final(self).x == pos_x_after(*old(self), delta_ms as int, gen_dx, *old(world)),
            final(self).y == pos_y_after(*old(self), delta_ms as int, gen_dy, *old(world)),
            final(self).angle == angle_after(*old(self), delta_ms as int),
            final(world).input == old(world).input,
            final(world).window_width == old(world).window_width,
            final(world).window_height == old(world).window_height,
            final(world).enemy_bullet_cooldown == old(world).enemy_bullet_cooldown,
            final(world).spawner == old(world).spawner,
            fires(*old(self), delta_ms as int) ==> final(world).entities@ == old(
                world,
            ).entities@.push(old(world).spawner.spec_spawn(final(self).x, final(self).y)),
            !fires(*old(self), delta_ms as int) ==> final(world).entities@ == old(
                world,
            ).entities@,
    {
        self.tick_timers(delta_ms);
        self.apply_movement(delta_ms, gen_dx, gen_dy);
        match self.entity_type {
            EntityType::Player => {
                let inp = world.input;
                self.player_input_step(delta_ms, inp);
                self.clamp_to_window(world.window_width, world.window_height);
            },
            EntityType::Enemy => {
                if self.bullet_cooldown <= 0 {
                    self.bullet_cooldown = world.enemy_bullet_cooldown;
                    let eb = world.spawner.spawn_enemy_bullet(self.x, self.y);
                    world.entities.push(eb);
                }
            },
            EntityType::Boss => {},
            EntityType::PlayerBullet => {
                self.angle = self.angle + (delta_ms as i64) * SPIN_RATE;
            },
            EntityType::EnemyBullet => {},
            EntityType::Powerup => {},
        }
    }
}

} // verus!
