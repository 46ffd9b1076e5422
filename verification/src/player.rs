//! The score-holder component and the player's spawn and shooting logic.

use vstd::prelude::*;

use crate::common::{
    collision_box_ok, collision_box_valid, position_ok, position_valid, shooter_ok,
    shooter_valid, CollisionBox, Direction, EntityId, Health, Position, Shooter,
    DEFAULT_AMMO_COUNT, DEFAULT_FIRE_RATE_PPM, DEFAULT_INIT_HEALTH, PPM_SCALE,
};
use crate::projectile::{Projectile, ProjectileModel};
use crate::registry::{live, slot_ok, spawn_model, spawned_id, valid_id, Registry};

verus! {

/// Vertical offset below the origin at which the player spawns.
pub const PLAYER_VERT_OFFSET: i64 = 200;

/// Damage dealt by the player's projectiles.
pub const PLAYER_PROJECTILE_DAMAGE: i64 = 30;

/// A score holder: its score is credited when a damage source it fired
/// destroys a qualifying target.
#[derive(Clone, Copy, PartialEq, Eq, Structural, Debug)]
pub struct Player {
    pub score: i64,
}

impl Default for Player {
    /// A fresh score holder starts at zero.
    fn default() -> (r: Self)
        ensures
            r.score == 0,
    {
        Player { score: 0 }
    }
}

/// Everything the player spawns with: score holder, health, shooter,
/// bounding extent and starting position.
pub struct PlayerBundle {
    pub player: Player,
    pub health: Health,
    pub shooter: Shooter,
    pub collision_box: CollisionBox,
    pub position: Position,
}

impl Default for PlayerBundle {
    /// The default player bundle: a head start of 10 points, default
    /// health and shooter, a 50 by 50 extent, placed below the origin.
    fn default() -> (r: Self)
        ensures
            r.player.score == 10,
            r.health == (Health { health: crate::common::DEFAULT_INIT_HEALTH }),
            r.shooter == (Shooter {
                ammo_count: crate::common::DEFAULT_AMMO_COUNT,
                fire_rate_ppm: crate::common::DEFAULT_FIRE_RATE_PPM,
            }),
            r.collision_box == (CollisionBox { width: 50, height: 50 }),
            r.position.x == 0 && r.position.y == -PLAYER_VERT_OFFSET && r.position.depth == 0,
    {
        PlayerBundle {
            player: Player { score: 10 },
            health: Default::default(),
            shooter: Default::default(),
            collision_box: CollisionBox { width: 50, height: 50 },
            position: Position { x: 0, y: -PLAYER_VERT_OFFSET, depth: 0 },
        }
    }
}

/// Whether a player bundle satisfies the spawn boundary's invariants.
/// Health and score are unconstrained integers; only the geometry and
/// the fire rate carry invariants.
pub open spec fn player_bundle_ok(b: PlayerBundle) -> bool {
    &&& position_ok(b.position)
    &&& collision_box_ok(b.collision_box)
    &&& shooter_ok(b.shooter)
}

/// Spawn a score-holding player from a bundle.  A bundle that violates
/// the registry's invariants is rejected with `None` and the registry is
/// unchanged; this is the spawn boundary's validation.
pub fn spawn_player(reg: &mut Registry, bundle: PlayerBundle) -> (r: Option<EntityId>)
    requires
        old(reg).wf(),
    ensures
        final(reg).wf(),
        (r is Some) <==> player_bundle_ok(bundle),
        r is None ==> final(reg)@ == old(reg)@,
        r matches Some(id) ==> ({
            &&& final(reg)@ == spawn_model(
                old(reg)@,
                bundle.position,
                Some(bundle.collision_box),
                Some(bundle.health),
                None,
                Some(bundle.shooter),
                Some(bundle.player),
                None,
            )
            &&& id == spawned_id(old(reg)@)
            &&& valid_id(final(reg)@, id)
            &&& final(reg)@[id.index as int] == crate::registry::spawn_slot_model(
                old(reg)@,
                bundle.position,
                Some(bundle.collision_box),
                Some(bundle.health),
                None,
                Some(bundle.shooter),
                Some(bundle.player),
                None,
            )
            &&& forall|x: EntityId|
                valid_id(old(reg)@, x) ==> valid_id(final(reg)@, x)
                    && final(reg)@[x.index as int] == old(reg)@[x.index as int]
        }),
{
    if position_valid(&bundle.position) && collision_box_valid(&bundle.collision_box)
        && shooter_valid(&bundle.shooter) {
        Some(
            reg.spawn(
                bundle.position,
                Some(bundle.collision_box),
                Some(bundle.health),
                None,
                Some(bundle.shooter),
                Some(bundle.player),
                None,
            ),
        )
    } else {
        None
    }
}

/// Spawn the player with its default bundle: 10 starting points, default
/// health and shooter, a 50 by 50 extent, below the origin.
pub fn player_startup_sys(reg: &mut Registry) -> (r: EntityId)
    requires
        old(reg).wf(),
    ensures
        final(reg).wf(),
        final(reg)@ == spawn_model(
            old(reg)@,
            (Position { x: 0, y: (-PLAYER_VERT_OFFSET) as i64, depth: 0 }),
            Some(CollisionBox { width: 50, height: 50 }),
            Some(Health { health: DEFAULT_INIT_HEALTH }),
            None,
            Some(Shooter { ammo_count: DEFAULT_AMMO_COUNT, fire_rate_ppm: DEFAULT_FIRE_RATE_PPM }),
            Some(Player { score: 10 }),
            None,
        ),
        r == spawned_id(old(reg)@),
        valid_id(final(reg)@, r),
        final(reg)@[r.index as int] == crate::registry::spawn_slot_model(
            old(reg)@,
            (Position { x: 0, y: (-PLAYER_VERT_OFFSET) as i64, depth: 0 }),
            Some(CollisionBox { width: 50, height: 50 }),
            Some(Health { health: DEFAULT_INIT_HEALTH }),
            None,
            Some(Shooter { ammo_count: DEFAULT_AMMO_COUNT, fire_rate_ppm: DEFAULT_FIRE_RATE_PPM }),
            Some(Player { score: 10 }),
            None,
        ),
        forall|x: EntityId|
            valid_id(old(reg)@, x) ==> valid_id(final(reg)@, x)
                && final(reg)@[x.index as int] == old(reg)@[x.index as int],
{
    let b = PlayerBundle::default();
    reg.spawn(
        b.position,
        Some(b.collision_box),
        Some(b.health),
        None,
        Some(b.shooter),
        Some(b.player),
        None,
    )
}

/// Fire the player's projectile: straight up, with the player as origin
/// and an empty whitelist, spawned at the player's position.  Returns
/// `None`, changing nothing, unless `player` is a live score holder with
/// a shooter — a failed lookup skips the shot, it never crashes.
pub fn player_shoot_sys(reg: &mut Registry, player: EntityId) -> (r: Option<EntityId>)
    requires
        old(reg).wf(),
    ensures
        final(reg).wf(),
        (r is Some) <==> (valid_id(old(reg)@, player)
            && old(reg)@[player.index as int].player is Some
            && old(reg)@[player.index as int].shooter is Some),
        r is None ==> final(reg)@ == old(reg)@,
        r matches Some(pid) ==> ({
            &&& final(reg)@ == spawn_model(
                old(reg)@,
                old(reg)@[player.index as int].position,
                Some(CollisionBox { width: 10, height: 10 }),
                None,
                Some(ProjectileModel {
                    direction: Direction::Up,
                    damage: PLAYER_PROJECTILE_DAMAGE,
                    speed_multiplier_ppm: PPM_SCALE,
                    origin: Some(player),
                    whitelist: Seq::empty(),
                }),
                None,
                None,
                None,
            )
            &&& pid == spawned_id(old(reg)@)
            &&& valid_id(final(reg)@, pid)
            &&& final(reg)@[pid.index as int] == crate::registry::spawn_slot_model(
                old(reg)@,
                old(reg)@[player.index as int].position,
                Some(CollisionBox { width: 10, height: 10 }),
                None,
                Some(ProjectileModel {
                    direction: Direction::Up,
                    damage: PLAYER_PROJECTILE_DAMAGE,
                    speed_multiplier_ppm: PPM_SCALE,
                    origin: Some(player),
                    whitelist: Seq::empty(),
                }),
                None,
                None,
                None,
            )
            &&& forall|x: EntityId|
                valid_id(old(reg)@, x) ==> valid_id(final(reg)@, x)
                    && final(reg)@[x.index as int] == old(reg)@[x.index as int]
        }),
{
    if reg.is_valid(player) {
        let is_player = match reg.player_at(player.index) {
            Some(_) => true,
            None => false,
        };
        let is_shooter = match reg.shooter_at(player.index) {
            Some(_) => true,
            None => false,
        };
        if is_player && is_shooter {
            proof {
                assert(live(reg@, player.index as int));
                assert(slot_ok(reg@[player.index as int]));
            }
            let pos = reg.position_at(player.index);
            let wl: Vec<EntityId> = Vec::new();
            let proj = Projectile {
                direction: Direction::Up,
                damage: PLAYER_PROJECTILE_DAMAGE,
                speed_multiplier_ppm: PPM_SCALE,
                origin: Some(player),
                whitelist: wl,
            };
            proof {
                assert(proj@ =~~= (ProjectileModel {
                    direction: Direction::Up,
                    damage: PLAYER_PROJECTILE_DAMAGE,
                    speed_multiplier_ppm: PPM_SCALE,
                    origin: Some(player),
                    whitelist: Seq::empty(),
                }));
            }
            let id = reg.spawn(
                pos,
                Some(CollisionBox { width: 10, height: 10 }),
                None,
                Some(proj),
                None,
                None,
                None,
            );
            Some(id)
        } else {
            None
        }
    } else {
        None
    }
}

} // verus!
