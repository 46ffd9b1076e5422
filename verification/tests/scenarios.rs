//! Whole-tick scenarios: overlaps, exemptions, damage, scoring, expiry
//! and reaping, driven through the public tick pipeline.

use arcade_combat::common::{CollisionBox, Direction, Health, Position, Shooter, Viewport};
use arcade_combat::enemy::EnemyBundle;
use arcade_combat::player::PlayerBundle;
use arcade_combat::projectile::{Projectile, ProjectileBundle};
use arcade_combat::registry::Registry;
use arcade_combat::tick::run_tick;

fn viewport() -> Viewport {
    Viewport { width: 800, height: 600 }
}

fn enemy_at(x: i64, y: i64, health: i64) -> EnemyBundle {
    let mut b = EnemyBundle::default();
    b.position = Position { x, y, depth: 0 };
    b.health = Health { health };
    b
}

fn projectile_at(x: i64, y: i64, p: Projectile) -> ProjectileBundle {
    ProjectileBundle {
        projectile: p,
        collision_box: CollisionBox { width: 10, height: 10 },
        position: Position { x, y, depth: 0 },
    }
}

#[test]
fn overlap_without_damage_source_changes_no_health() {
    // Two health-holders overlap; neither carries a damage source, so the
    // tick emits no hit and leaves both healths unchanged.
    let mut reg = Registry::new();
    let mut pb = PlayerBundle::default();
    pb.position = Position { x: 0, y: 0, depth: 0 };
    let p = arcade_combat::player::spawn_player(&mut reg, pb).unwrap();
    let e = arcade_combat::enemy::spawn_enemy(&mut reg, enemy_at(5, 0, 100)).unwrap();
    let vp = viewport();
    let out = run_tick(&mut reg, &vp);
    assert_eq!(out.collisions.len(), 1);
    assert_eq!(out.hits.len(), 0);
    assert_eq!(reg.health_of(p), Some(100));
    assert_eq!(reg.health_of(e), Some(100));
}

#[test]
fn strike_damages_consumes_and_scores() {
    // A 30-damage shot fired by the player overlaps an enemy: the enemy
    // drops to 70, the shot is consumed, one hit event is emitted, and
    // the player's score takes the award.
    let mut reg = Registry::new();
    let mut pb = PlayerBundle::default();
    pb.player.score = 0;
    pb.position = Position { x: 500, y: -200, depth: 0 };
    let p = arcade_combat::player::spawn_player(&mut reg, pb).unwrap();
    let e = arcade_combat::enemy::spawn_enemy(&mut reg, enemy_at(0, 0, 100)).unwrap();
    let shot = Projectile {
        direction: Direction::Up,
        damage: 30,
        speed_multiplier_ppm: 1_000_000,
        origin: Some(p),
        whitelist: Vec::new(),
    };
    let s = arcade_combat::projectile::spawn_projectile(&mut reg, projectile_at(0, -5, shot))
        .unwrap();
    let vp = viewport();
    let out = run_tick(&mut reg, &vp);
    assert_eq!(reg.health_of(e), Some(70));
    assert!(!reg.is_valid(s));
    assert_eq!(out.hits.len(), 1);
    assert_eq!(out.hits[0].projectile, s);
    assert_eq!(out.hits[0].other, e);
    assert_eq!(reg.score_of(p), Some(10));
}

#[test]
fn source_never_damages_its_own_origin() {
    // A shot spawns overlapping its firer, as shots do on their spawn
    // tick: the firer's health is unchanged and the shot stays active.
    let mut reg = Registry::new();
    let mut pb = PlayerBundle::default();
    pb.position = Position { x: 0, y: 0, depth: 0 };
    let p = arcade_combat::player::spawn_player(&mut reg, pb).unwrap();
    let shot = Projectile {
        direction: Direction::Up,
        damage: 30,
        speed_multiplier_ppm: 1_000_000,
        origin: Some(p),
        whitelist: Vec::new(),
    };
    let s = arcade_combat::projectile::spawn_projectile(&mut reg, projectile_at(0, 0, shot))
        .unwrap();
    let vp = viewport();
    let out = run_tick(&mut reg, &vp);
    assert_eq!(reg.health_of(p), Some(100));
    assert!(reg.is_valid(s));
    assert_eq!(out.hits.len(), 0);
}

#[test]
fn whitelisted_target_is_never_damaged() {
    // An enemy's shot passes through a fellow enemy on its whitelist:
    // no damage, no hit, the shot stays active.
    let mut reg = Registry::new();
    let shooter_enemy = arcade_combat::enemy::spawn_enemy(&mut reg, enemy_at(300, 200, 100))
        .unwrap();
    let fellow = arcade_combat::enemy::spawn_enemy(&mut reg, enemy_at(0, 0, 100)).unwrap();
    let shot = Projectile {
        direction: Direction::Down,
        damage: 10,
        speed_multiplier_ppm: 1_000_000,
        origin: Some(shooter_enemy),
        whitelist: vec![shooter_enemy, fellow],
    };
    let s = arcade_combat::projectile::spawn_projectile(&mut reg, projectile_at(0, 5, shot))
        .unwrap();
    let vp = viewport();
    let out = run_tick(&mut reg, &vp);
    assert_eq!(reg.health_of(fellow), Some(100));
    assert!(reg.is_valid(s));
    assert_eq!(out.hits.len(), 0);
}

#[test]
fn projectile_beyond_viewport_expires_before_detection() {
    // A shot that motion carries past the viewport's right edge is
    // removed by expiry before detection, so it never produces a
    // collision event, even with a health-holder sitting on its path.
    let mut reg = Registry::new();
    let e = arcade_combat::enemy::spawn_enemy(&mut reg, enemy_at(799, 0, 100)).unwrap();
    let shot = Projectile {
        direction: Direction::Right,
        damage: 10,
        speed_multiplier_ppm: 1_000_000,
        origin: None,
        whitelist: Vec::new(),
    };
    let s = arcade_combat::projectile::spawn_projectile(&mut reg, projectile_at(791, 0, shot))
        .unwrap();
    let vp = viewport();
    let out = run_tick(&mut reg, &vp);
    assert!(!reg.is_valid(s));
    assert_eq!(out.collisions.len(), 0);
    assert_eq!(out.hits.len(), 0);
    assert_eq!(reg.health_of(e), Some(100));
}

#[test]
fn health_zero_is_visible_this_tick_then_reaped() {
    // Damage lands the target exactly on zero: the hit event still
    // names it this tick, and the reaper has removed it by tick end.
    let mut reg = Registry::new();
    let e = arcade_combat::enemy::spawn_enemy(&mut reg, enemy_at(0, 0, 30)).unwrap();
    let shot = Projectile {
        direction: Direction::Up,
        damage: 30,
        speed_multiplier_ppm: 1_000_000,
        origin: None,
        whitelist: Vec::new(),
    };
    let s = arcade_combat::projectile::spawn_projectile(&mut reg, projectile_at(0, -5, shot))
        .unwrap();
    let vp = viewport();
    let out = run_tick(&mut reg, &vp);
    assert_eq!(out.hits.len(), 1);
    assert_eq!(out.hits[0].other, e);
    assert!(!reg.is_valid(e));
    assert_eq!(reg.health_of(e), None);
    assert!(!reg.is_valid(s));
}

#[test]
fn damage_is_exact_before_reaping() {
    // Resolution alone leaves health at exactly H - D; the reaper only
    // acts when that is zero or below.
    let mut reg = Registry::new();
    let e = arcade_combat::enemy::spawn_enemy(&mut reg, enemy_at(0, 0, 100)).unwrap();
    let shot = Projectile {
        direction: Direction::Up,
        damage: 30,
        speed_multiplier_ppm: 1_000_000,
        origin: None,
        whitelist: Vec::new(),
    };
    let s = arcade_combat::projectile::spawn_projectile(&mut reg, projectile_at(0, 0, shot))
        .unwrap();
    let events = arcade_combat::collision::collision_sys(&reg);
    assert_eq!(events.len(), 1);
    let hits = arcade_combat::combat::combat_resolve_sys(&mut reg, &events);
    assert_eq!(hits.len(), 1);
    assert_eq!(reg.health_of(e), Some(70));
    assert!(!reg.is_valid(s));
    arcade_combat::lifecycle::health_event_sys(&mut reg);
    assert_eq!(reg.health_of(e), Some(70));
    assert!(reg.is_valid(e));
}

#[test]
fn reaping_twice_equals_reaping_once() {
    // Idempotent reaping: a second run without intervening damage
    // changes nothing observable.
    let mut reg = Registry::new();
    let dead = arcade_combat::enemy::spawn_enemy(&mut reg, enemy_at(0, 0, 0)).unwrap();
    let alive = arcade_combat::enemy::spawn_enemy(&mut reg, enemy_at(100, 0, 25)).unwrap();
    arcade_combat::lifecycle::health_event_sys(&mut reg);
    assert!(!reg.is_valid(dead));
    assert!(reg.is_valid(alive));
    let len_once = reg.len();
    arcade_combat::lifecycle::health_event_sys(&mut reg);
    assert!(!reg.is_valid(dead));
    assert!(reg.is_valid(alive));
    assert_eq!(reg.health_of(alive), Some(25));
    assert_eq!(reg.len(), len_once);
}

#[test]
fn despawned_slot_reuse_invalidates_stale_handles() {
    // The arena reuses the dead slot with a bumped generation: the old
    // handle stays invalid, the new one works.
    let mut reg = Registry::new();
    let first = arcade_combat::enemy::spawn_enemy(&mut reg, enemy_at(0, 0, 0)).unwrap();
    arcade_combat::lifecycle::health_event_sys(&mut reg);
    assert!(!reg.is_valid(first));
    let second = arcade_combat::enemy::spawn_enemy(&mut reg, enemy_at(50, 0, 40)).unwrap();
    assert_eq!(second.index, first.index);
    assert!(second.generation > first.generation);
    assert!(!reg.is_valid(first));
    assert!(reg.is_valid(second));
    assert_eq!(reg.health_of(first), None);
    assert_eq!(reg.health_of(second), Some(40));
    assert_eq!(reg.len(), 1);
}

#[test]
fn spawn_boundary_rejects_bad_bundles() {
    // A non-positive bounding extent violates the registry invariant and
    // is rejected at the spawn boundary, leaving the registry unchanged.
    let mut reg = Registry::new();
    let mut b = EnemyBundle::default();
    b.collision_box = CollisionBox { width: 0, height: 15 };
    assert!(arcade_combat::enemy::spawn_enemy(&mut reg, b).is_none());
    let mut shooter = Shooter::default();
    shooter.fire_rate_ppm = 2_000_000;
    let mut b2 = EnemyBundle::default();
    b2.shooter = shooter;
    assert!(arcade_combat::enemy::spawn_enemy(&mut reg, b2).is_none());
    assert_eq!(reg.len(), 0);
}
