//! Component-level tests: geometry, the detector's pair guarantees,
//! defaults, movement, shooting and the startup spawner.

use arcade_combat::collision::collision_sys;
use arcade_combat::common::{
    CollisionBox, ContactSide, Direction, Health, Position, Shooter, Viewport,
};
use arcade_combat::enemy::{
    enemy_move_sys, enemy_shoot_sys, enemy_startup_sys, spawn_enemy, Enemy, EnemyBundle,
};
use arcade_combat::geometry::collide;
use arcade_combat::player::{player_shoot_sys, player_startup_sys, Player, PlayerBundle};
use arcade_combat::projectile::{projectile_move_sys, spawn_projectile, Projectile,
    ProjectileBundle};
use arcade_combat::registry::Registry;

fn pos(x: i64, y: i64) -> Position {
    Position { x, y, depth: 0 }
}

fn square(side: i64) -> CollisionBox {
    CollisionBox { width: side, height: side }
}

#[test]
fn collide_reports_side_of_smaller_penetration() {
    // A to the left of B, shallow horizontal penetration: A struck B's
    // left face.
    assert_eq!(collide(pos(-8, 0), square(10), pos(0, 0), square(10)), Some(ContactSide::Left));
    assert_eq!(collide(pos(8, 0), square(10), pos(0, 0), square(10)), Some(ContactSide::Right));
    assert_eq!(collide(pos(0, -8), square(10), pos(0, 0), square(10)), Some(ContactSide::Bottom));
    assert_eq!(collide(pos(0, 8), square(10), pos(0, 0), square(10)), Some(ContactSide::Top));
    // Exactly coincident boxes: the documented tie-break is horizontal
    // first, then the left face.
    assert_eq!(collide(pos(0, 0), square(10), pos(0, 0), square(10)), Some(ContactSide::Left));
    // Touching edges do not overlap.
    assert_eq!(collide(pos(10, 0), square(10), pos(0, 0), square(10)), None);
    assert_eq!(collide(pos(11, 0), square(10), pos(0, 0), square(10)), None);
}

#[test]
fn detector_reports_each_pair_once_and_never_self() {
    // Three mutually overlapping entities: exactly the three unordered
    // pairs, no duplicates, no self-pairs.
    let mut reg = Registry::new();
    let mut ids = Vec::new();
    for k in 0..3i64 {
        let mut b = EnemyBundle::default();
        b.position = pos(k * 4, 0);
        ids.push(spawn_enemy(&mut reg, b).unwrap());
    }
    let events = collision_sys(&reg);
    assert_eq!(events.len(), 3);
    for e in &events {
        assert_ne!(e.a, e.b);
    }
    for i in 0..events.len() {
        for j in (i + 1)..events.len() {
            assert!(
                events[i].a != events[j].a || events[i].b != events[j].b,
                "duplicate pair reported"
            );
        }
    }
}

#[test]
fn defaults_match_configuration() {
    let h = Health::default();
    assert_eq!(h.health, 100);
    let s = Shooter::default();
    assert_eq!(s.ammo_count, 10);
    assert_eq!(s.fire_rate_ppm, 10_000);
    let p = Player::default();
    assert_eq!(p.score, 0);
    let e = Enemy::default();
    assert_eq!(e.move_direction, Direction::Right);
    assert_eq!(e.move_speed, 150);
    let pr = Projectile::default();
    assert_eq!(pr.direction, Direction::Down);
    assert_eq!(pr.damage, 10);
    assert!(pr.origin.is_none());
    assert!(pr.whitelist.is_empty());
    let pb = PlayerBundle::default();
    assert_eq!(pb.player.score, 10);
    assert_eq!(pb.position.y, -200);
    let eb = EnemyBundle::default();
    assert_eq!(eb.collision_box.width, 15);
}

#[test]
fn opposite_swaps_each_axis() {
    assert_eq!(Direction::opposite(&Direction::Up), Direction::Down);
    assert_eq!(Direction::opposite(&Direction::Down), Direction::Up);
    assert_eq!(Direction::opposite(&Direction::Left), Direction::Right);
    assert_eq!(Direction::opposite(&Direction::Right), Direction::Left);
}

#[test]
fn projectiles_step_along_their_direction() {
    let mut reg = Registry::new();
    let up = ProjectileBundle {
        projectile: Projectile { direction: Direction::Up, ..Default::default() },
        collision_box: square(10),
        position: pos(0, 0),
    };
    let left = ProjectileBundle {
        projectile: Projectile { direction: Direction::Left, ..Default::default() },
        collision_box: square(10),
        position: pos(100, 7),
    };
    let a = spawn_projectile(&mut reg, up).unwrap();
    let b = spawn_projectile(&mut reg, left).unwrap();
    projectile_move_sys(&mut reg);
    assert_eq!(reg.position_at(a.index), pos(0, 10));
    assert_eq!(reg.position_at(b.index), pos(90, 7));
}

#[test]
fn enemies_sweep_and_turn_at_the_margin() {
    let mut reg = Registry::new();
    let mut mid = EnemyBundle::default();
    mid.position = pos(0, 100);
    let mut near_edge = EnemyBundle::default();
    near_edge.position = pos(350, 200);
    let m = spawn_enemy(&mut reg, mid).unwrap();
    let n = spawn_enemy(&mut reg, near_edge).unwrap();
    let vp = Viewport { width: 800, height: 600 };
    enemy_move_sys(&mut reg, &vp);
    // In the middle: keeps moving right at its default step.
    assert_eq!(reg.position_at(m.index), pos(150, 100));
    assert_eq!(reg.enemy_at(m.index).unwrap().move_direction, Direction::Right);
    // Past width/2 - margin = 300: turns left and steps back.
    assert_eq!(reg.position_at(n.index), pos(200, 200));
    assert_eq!(reg.enemy_at(n.index).unwrap().move_direction, Direction::Left);
}

#[test]
fn enemy_with_certain_fire_rate_fires_and_whitelists_the_faction() {
    // A fire rate of one million parts per million fires on every draw.
    let mut reg = Registry::new();
    let mut b = EnemyBundle::default();
    b.position = pos(0, 250);
    b.shooter = Shooter { ammo_count: 10, fire_rate_ppm: 1_000_000 };
    let e = spawn_enemy(&mut reg, b).unwrap();
    enemy_shoot_sys(&mut reg);
    assert_eq!(reg.len(), 2);
    assert!(reg.is_live(1));
    assert!(reg.is_projectile(1));
    assert_eq!(reg.projectile_origin(1), Some(e));
    assert_eq!(reg.projectile_damage(1), 10);
    assert_eq!(reg.projectile_direction(1), Direction::Down);
    assert!(reg.whitelist_has(1, e));
    assert_eq!(reg.position_at(1), pos(0, 250));
}

#[test]
fn two_certain_shooters_fire_one_shot_each() {
    // Each shooter draws once per call: two full-rate enemies yield
    // exactly two shots, one per firer.
    let mut reg = Registry::new();
    let mut a = EnemyBundle::default();
    a.position = pos(0, 250);
    a.shooter = Shooter { ammo_count: 10, fire_rate_ppm: 1_000_000 };
    let mut b = EnemyBundle::default();
    b.position = pos(100, 250);
    b.shooter = Shooter { ammo_count: 10, fire_rate_ppm: 1_000_000 };
    let ea = spawn_enemy(&mut reg, a).unwrap();
    let eb = spawn_enemy(&mut reg, b).unwrap();
    enemy_shoot_sys(&mut reg);
    assert_eq!(reg.len(), 4);
    assert!(reg.is_projectile(2) && reg.is_projectile(3));
    let o2 = reg.projectile_origin(2).unwrap();
    let o3 = reg.projectile_origin(3).unwrap();
    assert_ne!(o2, o3);
    assert!(o2 == ea || o2 == eb);
    assert!(o3 == ea || o3 == eb);
}

#[test]
fn enemy_with_zero_fire_rate_never_fires() {
    let mut reg = Registry::new();
    let mut b = EnemyBundle::default();
    b.shooter = Shooter { ammo_count: 10, fire_rate_ppm: 0 };
    spawn_enemy(&mut reg, b).unwrap();
    for _ in 0..50 {
        enemy_shoot_sys(&mut reg);
    }
    assert_eq!(reg.len(), 1);
}

#[test]
fn startup_rows_stack_downward_within_the_half_width() {
    let mut reg = Registry::new();
    let vp = Viewport { width: 800, height: 600 };
    let ids = enemy_startup_sys(&mut reg, &vp, 5, 20_000);
    assert_eq!(ids.len(), 5);
    for (k, id) in ids.iter().enumerate() {
        assert!(reg.is_valid(*id));
        let p = reg.position_at(id.index);
        assert!(-400 <= p.x && p.x < 400);
        assert_eq!(p.y, 300 - 50 * (k as i64 + 1));
        let sh = reg.shooter_at(id.index).unwrap();
        assert_eq!(sh.fire_rate_ppm, 20_000);
        assert_eq!(reg.health_of(*id), Some(100));
    }
}

#[test]
fn enemy_remove_sys_spares_other_health_holders() {
    let mut reg = Registry::new();
    let mut dead_enemy = EnemyBundle::default();
    dead_enemy.health = Health { health: 0 };
    let de = spawn_enemy(&mut reg, dead_enemy).unwrap();
    let mut drained_player = PlayerBundle::default();
    drained_player.health = Health { health: -5 };
    drained_player.position = Position { x: 100, y: 0, depth: 0 };
    let dp = arcade_combat::player::spawn_player(&mut reg, drained_player).unwrap();
    arcade_combat::enemy::enemy_remove_sys(&mut reg);
    assert!(!reg.is_valid(de));
    // The enemy-scoped reaper leaves non-enemy health-holders alone.
    assert!(reg.is_valid(dp));
    assert_eq!(reg.health_of(dp), Some(-5));
}

#[test]
fn damage_and_award_saturate_only_at_the_machine_bounds() {
    // Subtraction and the award are exact everywhere representable and
    // saturate only at the integer type's own bounds.
    let mut reg = Registry::new();
    let mut pb = PlayerBundle::default();
    pb.player.score = i64::MAX - 5;
    pb.position = Position { x: 500, y: 0, depth: 0 };
    let p = arcade_combat::player::spawn_player(&mut reg, pb).unwrap();
    let mut eb = EnemyBundle::default();
    eb.health = Health { health: i64::MIN + 5 };
    let e = spawn_enemy(&mut reg, eb).unwrap();
    let shot = Projectile {
        direction: Direction::Up,
        damage: 10,
        speed_multiplier_ppm: 1_000_000,
        origin: Some(p),
        whitelist: Vec::new(),
    };
    let sb = ProjectileBundle {
        projectile: shot,
        collision_box: square(10),
        position: pos(0, 0),
    };
    let s = spawn_projectile(&mut reg, sb).unwrap();
    let events = collision_sys(&reg);
    assert_eq!(events.len(), 1);
    arcade_combat::combat::combat_resolve_sys(&mut reg, &events);
    assert_eq!(reg.health_of(e), Some(i64::MIN));
    assert_eq!(reg.score_of(p), Some(i64::MAX));
    assert!(!reg.is_valid(s));
}

#[test]
fn player_shot_spawns_at_the_player_heading_up() {
    let mut reg = Registry::new();
    let p = player_startup_sys(&mut reg);
    let s = player_shoot_sys(&mut reg, p).unwrap();
    assert!(reg.is_valid(s));
    assert!(reg.is_projectile(s.index));
    assert_eq!(reg.projectile_damage(s.index), 30);
    assert_eq!(reg.projectile_direction(s.index), Direction::Up);
    assert_eq!(reg.projectile_origin(s.index), Some(p));
    assert_eq!(reg.position_at(s.index), pos(0, -200));
    // A stale or foreign handle never shoots and never crashes.
    let stale = arcade_combat::common::EntityId { index: 99, generation: 0 };
    assert!(player_shoot_sys(&mut reg, stale).is_none());
}
