use shooter_core::entity::Entity;
use shooter_core::entity::EntityType;
use shooter_core::entity::Lifetime;
use shooter_core::entity::Movement;
use shooter_core::entity::Rect;
use shooter_core::world::Input;
use shooter_core::world::Spawner;
use shooter_core::world::World;

// One pixel in fixed-point sub-units.
const PX: i64 = 1_000_000;

fn base_entity(kind: EntityType) -> Entity {
    Entity {
        entity_type: kind,
        x: 100 * PX,
        y: 100 * PX,
        hp: 3,
        dam: 1,
        vel: 0,
        movement: Movement::Static,
        bounds: Rect { x: 0, y: 0, w: 10 * PX, h: 10 * PX },
        lifetime: Lifetime::Forever,
        seed: 0,
        timer: 0,
        bullet_cooldown: 0,
        angle: 0,
    }
}

fn base_world() -> World {
    World {
        input: Input { up: false, right: false, down: false, left: false },
        window_width: 800 * PX,
        window_height: 600 * PX,
        enemy_bullet_cooldown: 1500,
        spawner: Spawner {
            bullet_vx: -40 * PX,
            bullet_vy: 0,
            bullet_lifetime_ms: 4000,
            bullet_hp: 1,
            bullet_dam: 1,
            bullet_bounds: Rect { x: 0, y: 0, w: 2 * PX, h: 2 * PX },
        },
        entities: Vec::new(),
    }
}

#[test]
fn static_entity_position_unchanged() {
    let mut w = base_world();
    for kind in [
        EntityType::Boss,
        EntityType::EnemyBullet,
        EntityType::PlayerBullet,
        EntityType::Powerup,
    ] {
        let mut e = base_entity(kind);
        e.update(777, 0, 0, &mut w);
        assert_eq!(e.x, 100 * PX);
        assert_eq!(e.y, 100 * PX);
    }
}

#[test]
fn linear_displacement_exact() {
    let mut e = base_entity(EntityType::Powerup);
    e.movement = Movement::Linear(2 * PX, -4 * PX);
    let mut w = base_world();
    e.update(500, 0, 0, &mut w);
    assert_eq!(e.x, 101 * PX);
    assert_eq!(e.y, 98 * PX);
}

#[test]
fn linear_displacement_truncates_toward_zero() {
    let mut e = base_entity(EntityType::Powerup);
    e.x = 0;
    e.movement = Movement::Linear(-1_499, 0);
    let mut w = base_world();
    e.update(999, 0, 0, &mut w);
    // -1499 * 999 / 1000 = -1497.501, truncated toward zero.
    assert_eq!(e.x, -1_497);
}

#[test]
fn generated_movement_consumes_supplied_rate() {
    let mut e = base_entity(EntityType::EnemyBullet);
    e.movement = Movement::Generated;
    let mut w = base_world();
    e.update(2000, 3 * PX, -PX, &mut w);
    assert_eq!(e.x, 106 * PX);
    assert_eq!(e.y, 98 * PX);
}

#[test]
fn cooldown_never_negative() {
    let mut e = base_entity(EntityType::Boss);
    e.bullet_cooldown = 5;
    let mut w = base_world();
    e.update(1000, 0, 0, &mut w);
    assert_eq!(e.bullet_cooldown, 0);
}

#[test]
fn lifetime_counts_down_past_zero() {
    let mut e = base_entity(EntityType::Powerup);
    e.lifetime = Lifetime::Remaining(100);
    let mut w = base_world();
    e.update(250, 0, 0, &mut w);
    assert_eq!(e.lifetime, Lifetime::Remaining(-150));
}

#[test]
fn forever_lifetime_stays_forever() {
    let mut e = base_entity(EntityType::Boss);
    let mut w = base_world();
    e.update(100_000, 0, 0, &mut w);
    assert_eq!(e.lifetime, Lifetime::Forever);
}

#[test]
fn timer_accumulates_over_updates() {
    let mut e = base_entity(EntityType::Boss);
    let mut w = base_world();
    e.update(16, 0, 0, &mut w);
    e.update(17, 0, 0, &mut w);
    assert_eq!(e.timer, 33);
}

#[test]
fn player_diagonal_up_right() {
    let mut e = base_entity(EntityType::Player);
    e.x = 400 * PX;
    e.y = 300 * PX;
    e.vel = 100 * PX;
    let mut w = base_world();
    w.input = Input { up: true, right: true, down: false, left: false };
    e.update(1000, 0, 0, &mut w);
    let dx = (e.x - 400 * PX) as f64 / PX as f64;
    let dy = (e.y - 300 * PX) as f64 / PX as f64;
    assert!((dx - 70.7107).abs() < 1e-3);
    assert!((dy + 70.7107).abs() < 1e-3);
    // The exact fixed-point displacement: 100 px * 0.70710678.
    assert_eq!(e.x - 400 * PX, 70_710_678);
    assert_eq!(e.y - 300 * PX, -70_710_678);
}

#[test]
fn player_cardinal_directions_full_speed() {
    let mut w = base_world();
    w.input = Input { up: false, right: true, down: false, left: false };
    let mut e = base_entity(EntityType::Player);
    e.vel = 50 * PX;
    e.update(200, 0, 0, &mut w);
    assert_eq!(e.x, 110 * PX);
    assert_eq!(e.y, 100 * PX);

    w.input = Input { up: true, right: false, down: false, left: false };
    let mut e = base_entity(EntityType::Player);
    e.vel = 50 * PX;
    e.update(200, 0, 0, &mut w);
    assert_eq!(e.x, 100 * PX);
    assert_eq!(e.y, 90 * PX);
}

#[test]
fn player_idle_flags_position_unchanged() {
    for vel in [0, 7 * PX, 1234 * PX] {
        let mut e = base_entity(EntityType::Player);
        e.vel = vel;
        let mut w = base_world();
        e.update(1000, 0, 0, &mut w);
        assert_eq!(e.x, 100 * PX);
        assert_eq!(e.y, 100 * PX);
    }
}

#[test]
fn player_opposite_flags_no_movement() {
    let mut e = base_entity(EntityType::Player);
    e.vel = 100 * PX;
    let mut w = base_world();
    w.input = Input { up: true, right: false, down: true, left: false };
    e.update(1000, 0, 0, &mut w);
    assert_eq!(e.x, 100 * PX);
    assert_eq!(e.y, 100 * PX);
}

#[test]
fn player_clamped_to_window() {
    // Far outside on the low side: snapped to the left/top edges.
    let mut e = base_entity(EntityType::Player);
    e.x = -5000 * PX;
    e.y = -5000 * PX;
    let mut w = base_world();
    e.update(16, 0, 0, &mut w);
    assert_eq!(e.x, 0);
    assert_eq!(e.y, 0);

    // Far outside on the high side: snapped so the rectangle's far edge
    // meets the window's.
    let mut e = base_entity(EntityType::Player);
    e.x = 5000 * PX;
    e.y = 5000 * PX;
    e.update(16, 0, 0, &mut w);
    assert_eq!(e.x, 790 * PX);
    assert_eq!(e.y, 590 * PX);
}

#[test]
fn player_clamp_respects_bounds_offset() {
    let mut e = base_entity(EntityType::Player);
    e.bounds = Rect { x: -2 * PX, y: -3 * PX, w: 4 * PX, h: 6 * PX };
    e.x = 0;
    e.y = 0;
    let mut w = base_world();
    e.update(16, 0, 0, &mut w);
    assert_eq!(e.x, 2 * PX);
    assert_eq!(e.y, 3 * PX);
}

#[test]
fn enemy_fires_at_zero_cooldown() {
    let mut e = base_entity(EntityType::Enemy);
    e.bullet_cooldown = 0;
    let mut w = base_world();
    e.update(16, 0, 0, &mut w);
    assert_eq!(w.entities.len(), 1);
    assert_eq!(e.bullet_cooldown, 1500);
    let bullet = w.entities[0];
    assert_eq!(bullet, w.spawner.spawn_enemy_bullet(e.x, e.y));
    assert_eq!(bullet.entity_type, EntityType::EnemyBullet);
    assert_eq!(bullet.x, 100 * PX);
    assert_eq!(bullet.y, 100 * PX);
    assert_eq!(bullet.movement, Movement::Linear(-40 * PX, 0));
    assert_eq!(bullet.lifetime, Lifetime::Remaining(4000));
}

#[test]
fn enemy_fires_when_cooldown_elapses_this_tick() {
    let mut e = base_entity(EntityType::Enemy);
    e.bullet_cooldown = 300;
    let mut w = base_world();
    e.update(300, 0, 0, &mut w);
    assert_eq!(w.entities.len(), 1);
    assert_eq!(e.bullet_cooldown, 1500);
}

#[test]
fn enemy_holds_fire_while_cooling_down() {
    let mut e = base_entity(EntityType::Enemy);
    e.bullet_cooldown = 1000;
    let mut w = base_world();
    e.update(300, 0, 0, &mut w);
    assert_eq!(w.entities.len(), 0);
    assert_eq!(e.bullet_cooldown, 700);
}

#[test]
fn player_bullet_spins() {
    let mut e = base_entity(EntityType::PlayerBullet);
    let mut w = base_world();
    e.update(250, 0, 0, &mut w);
    // 250 ms / 100 = 2.5 angle units.
    assert_eq!(e.angle, 2_500_000);
    e.update(123, 0, 0, &mut w);
    assert_eq!(e.angle, 2_500_000 + 1_230_000);
}

#[test]
fn player_bullet_changes_nothing_else() {
    let mut e = base_entity(EntityType::PlayerBullet);
    e.vel = 9 * PX;
    e.hp = 7;
    e.dam = 2;
    e.seed = 123_456;
    let before = e;
    let mut w = base_world();
    e.update(100, 0, 0, &mut w);
    assert_eq!(e.entity_type, before.entity_type);
    assert_eq!(e.hp, before.hp);
    assert_eq!(e.dam, before.dam);
    assert_eq!(e.vel, before.vel);
    assert_eq!(e.movement, before.movement);
    assert_eq!(e.bounds, before.bounds);
    assert_eq!(e.seed, before.seed);
    assert_eq!(e.x, before.x);
    assert_eq!(e.y, before.y);
    assert_eq!(w.entities.len(), 0);
}

#[test]
fn translate_shifts_position() {
    let mut e = base_entity(EntityType::Boss);
    e.translate(5 * PX, -3 * PX);
    assert_eq!(e.x, 105 * PX);
    assert_eq!(e.y, 97 * PX);
    assert_eq!(e.timer, 0);
}

#[test]
fn spawner_builds_bullet_at_origin() {
    let w = base_world();
    let b = w.spawner.spawn_enemy_bullet(12 * PX, 34 * PX);
    assert_eq!(b.entity_type, EntityType::EnemyBullet);
    assert_eq!(b.x, 12 * PX);
    assert_eq!(b.y, 34 * PX);
    assert_eq!(b.hp, 1);
    assert_eq!(b.dam, 1);
    assert_eq!(b.movement, Movement::Linear(-40 * PX, 0));
    assert_eq!(b.lifetime, Lifetime::Remaining(4000));
    assert_eq!(b.timer, 0);
    assert_eq!(b.bullet_cooldown, 0);
    assert_eq!(b.angle, 0);
}
