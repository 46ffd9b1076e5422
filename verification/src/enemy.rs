//! The enemy component, its bundle, enemy movement across the screen, the
//! random-fire shooting system and the startup spawner.

use vstd::prelude::*;

use crate::common::{
    collision_box_ok, collision_box_valid, position_ok, position_valid, shooter_ok,
    shooter_valid, viewport_ok, CollisionBox, Direction, EntityId, Health, Position, Shooter,
    Viewport, DEFAULT_AMMO_COUNT, DEFAULT_INIT_HEALTH, PPM_SCALE, SPEED_LIMIT,
};
use crate::projectile::{clamp_coord, clamp_coord_spec, Projectile};
use crate::registry::{
    id_at, live, slot_ok, spawn_model, spawned_id, valid_id, wf_model, Registry, SlotModel,
};
use crate::rng::gen_range_i64;

verus! {

/// Horizontal margin from the viewport edge at which enemies turn around.
pub const WINDOW_MARGIN: i64 = 100;

/// Default per-tick horizontal step of an enemy.
pub const DEFAULT_MOVE_SPEED: i64 = 150;

/// Damage dealt by enemy projectiles.
pub const ENEMY_PROJECTILE_DAMAGE: i64 = 10;

/// Vertical spacing between enemies spawned at startup.
pub const ENEMY_VERT_SPACING: i64 = 50;

/// An enemy: sweeps horizontally across the screen, turning around near
/// the viewport edges.  `move_speed` is its per-tick step.
#[derive(Clone, Copy, PartialEq, Eq, Structural, Debug)]
pub struct Enemy {
    pub move_direction: Direction,
    pub move_speed: i64,
}

pub open spec fn enemy_ok(e: Enemy) -> bool {
    0 <= e.move_speed <= SPEED_LIMIT
}

impl Default for Enemy {
    /// A fresh enemy moves right at the default speed.
    fn default() -> (r: Self)
        ensures
            r.move_direction == Direction::Right,
            r.move_speed == DEFAULT_MOVE_SPEED,
    {
        Enemy { move_direction: Direction::Right, move_speed: DEFAULT_MOVE_SPEED }
    }
}

/// Everything an enemy spawns with: the enemy itself, health, a shooter,
/// its bounding extent and its starting position.
pub struct EnemyBundle {
    pub enemy: Enemy,
    pub health: Health,
    pub shooter: Shooter,
    pub collision_box: CollisionBox,
    pub position: Position,
}

impl Default for EnemyBundle {
    /// The default enemy bundle: default enemy, health and shooter, a
    /// 15 by 15 extent, placed at the origin.
    fn default() -> (r: Self)
        ensures
            r.enemy == (Enemy {
                move_direction: Direction::Right,
                move_speed: DEFAULT_MOVE_SPEED,
            }),
            r.health == (Health { health: crate::common::DEFAULT_INIT_HEALTH }),
            r.shooter == (Shooter {
                ammo_count: crate::common::DEFAULT_AMMO_COUNT,
                fire_rate_ppm: crate::common::DEFAULT_FIRE_RATE_PPM,
            }),
            r.collision_box == (CollisionBox { width: 15, height: 15 }),
            r.position == (Position { x: 0, y: 0, depth: 0 }),
    {
        EnemyBundle {
            enemy: Default::default(),
            health: Default::default(),
            shooter: Default::default(),
            collision_box: CollisionBox { width: 15, height: 15 },
            position: Position { x: 0, y: 0, depth: 0 },
        }
    }
}

/// Runtime check of [`enemy_ok`], for the spawn boundary.
pub fn enemy_valid(e: &Enemy) -> (r: bool)
    ensures
        r == enemy_ok(*e),
{
    0 <= e.move_speed && e.move_speed <= SPEED_LIMIT
}

/// Whether an enemy bundle satisfies the spawn boundary's invariants.
/// Health is an unconstrained integer; only the geometry, the fire rate
/// and the movement step carry invariants.
pub open spec fn enemy_bundle_ok(b: EnemyBundle) -> bool {
    &&& position_ok(b.position)
    &&& collision_box_ok(b.collision_box)
    &&& shooter_ok(b.shooter)
    &&& enemy_ok(b.enemy)
}

/// Spawn an enemy from a bundle.  A bundle that violates the registry's
/// invariants is rejected with `None` and the registry is unchanged;
/// this is the spawn boundary's validation.
pub fn spawn_enemy(reg: &mut Registry, bundle: EnemyBundle) -> (r: Option<EntityId>)
    requires
        old(reg).wf(),
    ensures
        final(reg).wf(),
        (r is Some) <==> enemy_bundle_ok(bundle),
        r is None ==> final(reg)@ == old(reg)@,
        r matches Some(id) ==> ({
            &&& final(reg)@ == spawn_model(
                old(reg)@,
                bundle.position,
                Some(bundle.collision_box),
                Some(bundle.health),
                None,
                Some(bundle.shooter),
                None,
                Some(bundle.enemy),
            )
            &&& id == spawned_id(old(reg)@)
            &&& valid_id(final(reg)@, id)
            &&& final(reg)@[id.index as int] == crate::registry::spawn_slot_model(
                old(reg)@,
                bundle.position,
                Some(bundle.collision_box),
                Some(bundle.health),
                None,
                Some(bundle.shooter),
                None,
                Some(bundle.enemy),
            )
            &&& forall|x: EntityId|
                valid_id(old(reg)@, x) ==> valid_id(final(reg)@, x)
                    && final(reg)@[x.index as int] == old(reg)@[x.index as int]
        }),
{
    if position_valid(&bundle.position) && collision_box_valid(&bundle.collision_box)
        && shooter_valid(&bundle.shooter) && enemy_valid(&bundle.enemy) {
        Some(
            reg.spawn(
                bundle.position,
                Some(bundle.collision_box),
                Some(bundle.health),
                None,
                Some(bundle.shooter),
                None,
                Some(bundle.enemy),
            ),
        )
    } else {
        None
    }
}

/// The direction an enemy at horizontal position `x` sweeps in next:
/// it turns left near the right edge, right near the left edge, and
/// otherwise keeps its direction.
pub open spec fn turned_direction(x: i64, dir: Direction, vp: Viewport) -> Direction {
    if x > vp.width / 2 - WINDOW_MARGIN {
        Direction::Left
    } else if x < -(vp.width / 2) + WINDOW_MARGIN {
        Direction::Right
    } else {
        dir
    }
}

/// A slot after one enemy movement step: a live enemy turns at the
/// viewport margins and advances its per-tick step horizontally;
/// everything else is untouched.
pub open spec fn enemy_moved_slot(m: SlotModel, vp: Viewport) -> SlotModel {
    if m.alive && m.enemy is Some {
        let e = m.enemy->0;
        let nd = turned_direction(m.position.x, e.move_direction, vp);
        let nx = if nd == Direction::Left {
            clamp_coord_spec(m.position.x - e.move_speed)
        } else if nd == Direction::Right {
            clamp_coord_spec(m.position.x + e.move_speed)
        } else {
            m.position.x
        };
        SlotModel {
            position: Position { x: nx, ..m.position },
            enemy: Some(Enemy { move_direction: nd, ..e }),
            ..m
        }
    } else {
        m
    }
}

/// The registry model after one enemy movement step.
pub open spec fn enemy_move_all(s: Seq<SlotModel>, vp: Viewport) -> Seq<SlotModel> {
    Seq::new(s.len(), |i: int| enemy_moved_slot(s[i], vp))
}

/// Sweep every live enemy horizontally: turn around within the margin of
/// either viewport edge, then advance one per-tick step.
pub fn enemy_move_sys(reg: &mut Registry, vp: &Viewport)
    requires
        old(reg).wf(),
        viewport_ok(*vp),
    ensures
        final(reg).wf(),
        final(reg)@ == enemy_move_all(old(reg)@, *vp),
{
    let n: usize = reg.len();
    let mut i: usize = 0;
    while i < n
        invariant
            reg.wf(),
            viewport_ok(*vp),
            n == reg@.len(),
            i <= n,
            forall|j: int| 0 <= j < i ==> reg@[j] == enemy_moved_slot(#[trigger] old(reg)@[j], *vp),
            forall|j: int| i <= j < n ==> reg@[j] == old(reg)@[j],
        decreases n - i,
    {
        if reg.is_live(i) {
            match reg.enemy_at(i) {
                Some(e) => {
                    proof {
                        assert(live(reg@, i as int));
                        assert(slot_ok(reg@[i as int]));
                    }
                    let p = reg.position_at(i);
                    let half: i64 = vp.width / 2;
                    let nd = if p.x > half - WINDOW_MARGIN {
                        Direction::Left
                    } else if p.x < -half + WINDOW_MARGIN {
                        Direction::Right
                    } else {
                        e.move_direction
                    };
                    let nx: i64 = match nd {
                        Direction::Left => clamp_coord(p.x - e.move_speed),
                        Direction::Right => clamp_coord(p.x + e.move_speed),
                        _ => p.x,
                    };
                    reg.set_enemy(i, Enemy { move_direction: nd, move_speed: e.move_speed });
                    reg.set_position(i, Position { x: nx, y: p.y, depth: p.depth });
                    proof {
                        assert(reg@[i as int] == enemy_moved_slot(old(reg)@[i as int], *vp));
                    }
                },
                None => {},
            }
        }
        i += 1;
    }
    proof {
        assert(reg@ =~~= enemy_move_all(old(reg)@, *vp));
    }
}

/// The handles of all live enemies among the first `n` slots, in slot
/// order.
pub open spec fn enemy_ids_upto(s: Seq<SlotModel>, n: int) -> Seq<EntityId>
    decreases n,
{
    if n <= 0 {
        Seq::empty()
    } else {
        enemy_ids_upto(s, n - 1) + (if live(s, n - 1) && s[n - 1].enemy is Some {
            seq![id_at(s, n - 1)]
        } else {
            Seq::empty()
        })
    }
}

/// The handles of all live enemies, in slot order: the faction whitelist
/// an enemy's shot carries.
pub open spec fn enemy_ids(s: Seq<SlotModel>) -> Seq<EntityId> {
    enemy_ids_upto(s, s.len() as int)
}

/// Whether slot `t` holds an entity live in `s1` that was not live in
/// `s0`: a slot the call in between spawned into.
pub open spec fn newly_live(s0: Seq<SlotModel>, s1: Seq<SlotModel>, t: int) -> bool {
    0 <= t < s1.len() && s1[t].alive && !(0 <= t < s0.len() && s0[t].alive)
}

/// The origin recorded in a slot's damage source, if it has one.
pub open spec fn slot_origin(m: SlotModel) -> Option<EntityId> {
    match m.projectile {
        Some(p) => p.origin,
        None => None,
    }
}

/// Whether slot `j` holds a live enemy shooter at the full probability
/// scale: such a shooter fires on every draw.
pub open spec fn certain_shooter(s: Seq<SlotModel>, j: int) -> bool {
    &&& live(s, j)
    &&& s[j].enemy is Some
    &&& s[j].shooter matches Some(t) && t.fire_rate_ppm == PPM_SCALE
}

/// Whether some slot newly live in `s1` holds a shot whose origin is the
/// enemy in slot `j` of `s0`.
pub open spec fn has_shot_from(s0: Seq<SlotModel>, s1: Seq<SlotModel>, j: int) -> bool {
    exists|t: int| #![auto] newly_live(s0, s1, t) && slot_origin(s1[t]) == Some(id_at(s0, j))
}

/// Whether `m` is a slot holding a shot just fired by a live enemy
/// shooter of the pre-shot registry `s0`: straight down, with the firing
/// enemy — whose fire rate beat the draw, so in particular is positive —
/// as origin, spawned at the firer's position, whitelisting the whole
/// enemy faction.
pub open spec fn enemy_shot_slot(s0: Seq<SlotModel>, m: SlotModel) -> bool {
    &&& m.projectile matches Some(p) && ({
        &&& p.direction == Direction::Down
        &&& p.damage == ENEMY_PROJECTILE_DAMAGE
        &&& p.speed_multiplier_ppm == PPM_SCALE
        &&& p.whitelist == enemy_ids(s0)
        &&& p.origin matches Some(o) && valid_id(s0, o) && s0[o.index as int].enemy is Some
            && s0[o.index as int].shooter is Some
            && s0[o.index as int].shooter->0.fire_rate_ppm > 0
            && m.position == s0[o.index as int].position
    })
    &&& m.collision_box == Some(CollisionBox { width: 10, height: 10 })
    &&& m.health is None
    &&& m.shooter is None
    &&& m.player is None
    &&& m.enemy is None
}

/// Copy a list of handles element by element.
fn copy_ids(v: &Vec<EntityId>) -> (r: Vec<EntityId>)
    ensures
        r@ == v@,
{
    let mut r: Vec<EntityId> = Vec::new();
    let mut k: usize = 0;
    while k < v.len()
        invariant
            k <= v@.len(),
            r@ == v@.take(k as int),
        decreases v@.len() - k,
    {
        r.push(v[k]);
        proof {
            assert(r@ =~= v@.take(k as int + 1));
        }
        k += 1;
    }
    proof {
        assert(v@.take(v@.len() as int) =~= v@);
    }
    r
}

/// Each live enemy shooter draws once at random against its per-tick
/// fire rate and fires exactly when the draw falls below the rate; a
/// firing enemy spawns one shot straight down at its own position, with
/// itself as origin and the whole enemy faction whitelisted.  Whatever
/// the random draws: every entity live before the call is unchanged;
/// every newly live slot is such a shot, from a firer with a positive
/// fire rate — so a rate-zero shooter never fires; a shooter at the full
/// probability scale fires on every draw, so its shot is owed; and
/// distinct new shots name distinct firers — one draw, hence at most one
/// shot, per shooter.
pub fn enemy_shoot_sys(reg: &mut Registry)
    requires
        old(reg).wf(),
    ensures
        final(reg).wf(),
        old(reg)@.len() <= final(reg)@.len(),
        forall|j: int|
            0 <= j < old(reg)@.len() && old(reg)@[j].alive
                ==> #[trigger] final(reg)@[j] == old(reg)@[j],
        forall|t: int|
            #[trigger] newly_live(old(reg)@, final(reg)@, t)
                ==> enemy_shot_slot(old(reg)@, final(reg)@[t]),
        forall|j: int|
            #[trigger] certain_shooter(old(reg)@, j)
                ==> has_shot_from(old(reg)@, final(reg)@, j),
        forall|t1: int, t2: int|
            #[trigger] newly_live(old(reg)@, final(reg)@, t1)
                && #[trigger] newly_live(old(reg)@, final(reg)@, t2) && t1 != t2
                ==> slot_origin(final(reg)@[t1]) != slot_origin(final(reg)@[t2]),
{
    let ghost s0: Seq<SlotModel> = reg@;
    let n: usize = reg.len();
    let mut ids: Vec<EntityId> = Vec::new();
    let mut i: usize = 0;
    while i < n
        invariant
            reg.wf(),
            reg@ == s0,
            n == s0.len(),
            i <= n,
            ids@ == enemy_ids_upto(s0, i as int),
        decreases n - i,
    {
        let mut is_enemy = false;
        if reg.is_live(i) {
            match reg.enemy_at(i) {
                Some(_) => {
                    is_enemy = true;
                },
                None => {},
            }
        }
        if is_enemy {
            ids.push(reg.entity_at(i));
            proof {
                assert(ids@ =~= enemy_ids_upto(s0, i as int + 1));
            }
        } else {
            proof {
                assert(ids@ =~= enemy_ids_upto(s0, i as int + 1));
            }
        }
        i += 1;
    }
    let mut k: usize = 0;
    while k < n
        invariant
            reg.wf(),
            wf_model(s0),
            n == s0.len(),
            k <= n,
            ids@ == enemy_ids(s0),
            n <= reg@.len(),
            forall|j: int|
                0 <= j < n && s0[j].alive ==> #[trigger] reg@[j] == s0[j],
            forall|t: int|
                #[trigger] newly_live(s0, reg@, t) ==> enemy_shot_slot(s0, reg@[t]),
            forall|t: int|
                #[trigger] newly_live(s0, reg@, t)
                    ==> (slot_origin(reg@[t]) matches Some(o) && (o.index as int) < k),
            forall|j: int|
                0 <= j < k && #[trigger] certain_shooter(s0, j) ==> has_shot_from(s0, reg@, j),
            forall|t1: int, t2: int|
                #[trigger] newly_live(s0, reg@, t1) && #[trigger] newly_live(s0, reg@, t2)
                    && t1 != t2 ==> slot_origin(reg@[t1]) != slot_origin(reg@[t2]),
        decreases n - k,
    {
        let mut eligible = false;
        let mut rate: i64 = 0;
        if reg.is_live(k) {
            let has_enemy = match reg.enemy_at(k) {
                Some(_) => true,
                None => false,
            };
            match reg.shooter_at(k) {
                Some(t) => {
                    if has_enemy {
                        eligible = true;
                        rate = t.fire_rate_ppm;
                    }
                },
                None => {},
            }
        }
        if eligible {
            proof {
                if !(k < n && s0[k as int].alive) {
                    assert(newly_live(s0, reg@, k as int));
                    assert(enemy_shot_slot(s0, reg@[k as int]));
                    assert(false);
                }
                assert(reg@[k as int] == s0[k as int]);
                assert(slot_ok(s0[k as int]));
            }
            let roll = gen_range_i64(0, PPM_SCALE);
            if roll < rate {
                let ghost pre: Seq<SlotModel> = reg@;
                let pos = reg.position_at(k);
                let origin = reg.entity_at(k);
                let wl = copy_ids(&ids);
                let proj = Projectile {
                    direction: Direction::Down,
                    damage: ENEMY_PROJECTILE_DAMAGE,
                    speed_multiplier_ppm: PPM_SCALE,
                    origin: Some(origin),
                    whitelist: wl,
                };
                let id = reg.spawn(
                    pos,
                    Some(CollisionBox { width: 10, height: 10 }),
                    None,
                    Some(proj),
                    None,
                    None,
                    None,
                );
                proof {
                    let t0 = crate::registry::spawn_index(pre);
                    assert forall|j: int| 0 <= j < n && s0[j].alive
                        implies #[trigger] reg@[j] == s0[j] by {
                        if j == t0 {
                            assert(pre[j] == s0[j]);
                            assert(!pre[t0].alive || t0 == pre.len());
                            assert(false);
                        } else {
                            assert(reg@[j] == pre[j]);
                        }
                    }
                    assert(id.index as int == t0);
                    assert(newly_live(s0, reg@, t0)) by {
                        if t0 < pre.len() {
                            assert(!pre[t0].alive);
                            if 0 <= t0 < s0.len() && s0[t0].alive {
                                assert(pre[t0] == s0[t0]);
                            }
                        }
                    };
                    assert(enemy_shot_slot(s0, reg@[t0]));
                    assert(slot_origin(reg@[t0]) == Some(id_at(s0, k as int)));
                    assert forall|t: int| #[trigger] newly_live(s0, reg@, t) && t != t0
                        implies newly_live(s0, pre, t) && reg@[t] == pre[t] by {
                        assert(t < pre.len());
                        assert(reg@[t] == pre[t]);
                    }
                    assert forall|j: int|
                        0 <= j < k + 1 && #[trigger] certain_shooter(s0, j)
                        implies has_shot_from(s0, reg@, j) by {
                        if j < k {
                            let w = choose|t: int|
                                #![auto]
                                newly_live(s0, pre, t) && slot_origin(pre[t]) == Some(
                                    id_at(s0, j),
                                );
                            assert(w != t0);
                            assert(newly_live(s0, reg@, w) && slot_origin(reg@[w]) == Some(
                                id_at(s0, j),
                            ));
                        } else {
                            assert(newly_live(s0, reg@, t0) && slot_origin(reg@[t0]) == Some(
                                id_at(s0, j),
                            ));
                        }
                    }
                }
            } else {
                proof {
                    // A full-scale rate always beats the draw, so this
                    // branch implies the shooter was not certain-fire.
                    if certain_shooter(s0, k as int) {
                        assert(rate == PPM_SCALE);
                        assert(false);
                    }
                }
            }
        } else {
            proof {
                // A certain-fire shooter is a live enemy shooter of the
                // starting registry, still unchanged here, so it would
                // have been eligible.
                if certain_shooter(s0, k as int) {
                    assert(reg@[k as int] == s0[k as int]);
                    assert(false);
                }
            }
        }
        k += 1;
    }
}

/// A slot after the enemy reaper: a live enemy with exhausted health
/// goes dead; everything else is untouched.
pub open spec fn enemy_reaped_slot(m: SlotModel) -> SlotModel {
    if m.alive && m.enemy is Some && (m.health matches Some(h) && h.health <= 0) {
        SlotModel { alive: false, ..m }
    } else {
        m
    }
}

/// The registry model after the enemy reaper.
pub open spec fn enemy_reap_all(s: Seq<SlotModel>) -> Seq<SlotModel> {
    Seq::new(s.len(), |i: int| enemy_reaped_slot(s[i]))
}

/// Despawn every live enemy whose health is zero or below.  The general
/// lifecycle reaper subsumes this scan; it exists for schedules that
/// retire enemies separately from other health-holders.
pub fn enemy_remove_sys(reg: &mut Registry)
    requires
        old(reg).wf(),
    ensures
        final(reg).wf(),
        final(reg)@ == enemy_reap_all(old(reg)@),
{
    let n: usize = reg.len();
    let mut i: usize = 0;
    while i < n
        invariant
            reg.wf(),
            n == reg@.len(),
            i <= n,
            forall|j: int| 0 <= j < i ==> reg@[j] == enemy_reaped_slot(#[trigger] old(reg)@[j]),
            forall|j: int| i <= j < n ==> reg@[j] == old(reg)@[j],
        decreases n - i,
    {
        let mut is_enemy = false;
        if reg.is_live(i) {
            match reg.enemy_at(i) {
                Some(_) => {
                    is_enemy = true;
                },
                None => {},
            }
        }
        if is_enemy {
            match reg.health_at(i) {
                Some(h) => {
                    if h.health <= 0 {
                        reg.kill_at(i);
                    }
                },
                None => {},
            }
        }
        i += 1;
    }
    proof {
        assert(reg@ =~~= enemy_reap_all(old(reg)@));
    }
}

/// The largest enemy column a startup spawn may create.  The coordinate
/// range would allow POS_LIMIT divided by the vertical spacing; this cap
/// stays under it and within the index width of any machine, so even
/// the lowest row's position provably stays representable.
pub const MAX_STARTUP_ENEMIES: usize = 4_000_000_000;

/// Whether `m` is the `k`-th enemy of a startup row for viewport `vp`
/// and fire rate `rate`: default movement, health and ammunition, a
/// 15 by 15 extent, a random horizontal position within the half-width,
/// and a row position `k` steps below the top half's first row.
pub open spec fn startup_enemy_slot(m: SlotModel, vp: Viewport, rate: i64, k: int) -> bool {
    &&& m.enemy == Some(Enemy { move_direction: Direction::Right, move_speed: DEFAULT_MOVE_SPEED })
    &&& m.health == Some(Health { health: DEFAULT_INIT_HEALTH })
    &&& m.shooter == Some(Shooter { ammo_count: DEFAULT_AMMO_COUNT, fire_rate_ppm: rate })
    &&& m.collision_box == Some(CollisionBox { width: 15, height: 15 })
    &&& -(vp.width / 2) <= m.position.x < vp.width / 2
    &&& m.position.y == vp.height / 2 - ENEMY_VERT_SPACING * (k + 1)
    &&& m.position.depth == 0
    &&& m.projectile is None
    &&& m.player is None
}

/// Spawn `enemy_count` enemies in the top half of the viewport: each at
/// a random horizontal position within the half-width, stacked downward
/// with fixed vertical spacing, all with the given fire rate.  Every
/// entity live before the call is unchanged; the returned handles are
/// distinct and live.
pub fn enemy_startup_sys(
    reg: &mut Registry,
    vp: &Viewport,
    enemy_count: usize,
    fire_rate_ppm: i64,
) -> (r: Vec<EntityId>)
    requires
        old(reg).wf(),
        viewport_ok(*vp),
        vp.width >= 2,
        0 <= fire_rate_ppm <= PPM_SCALE,
        enemy_count <= MAX_STARTUP_ENEMIES,
    ensures
        final(reg).wf(),
        r@.len() == enemy_count,
        forall|k: int|
            0 <= k < enemy_count ==> valid_id(final(reg)@, #[trigger] r@[k])
                && startup_enemy_slot(
                final(reg)@[r@[k].index as int],
                *vp,
                fire_rate_ppm,
                k,
            ),
        forall|k: int, l: int| 0 <= k < l < enemy_count ==> r@[k].index != r@[l].index,
        forall|j: int|
            0 <= j < old(reg)@.len() && old(reg)@[j].alive
                ==> #[trigger] final(reg)@[j] == old(reg)@[j],
{
    let ghost s0: Seq<SlotModel> = reg@;
    let mut out: Vec<EntityId> = Vec::new();
    let half_w: i64 = vp.width / 2;
    let half_h: i64 = vp.height / 2;
    let mut c: usize = 0;
    while c < enemy_count
        invariant
            reg.wf(),
            viewport_ok(*vp),
            vp.width >= 2,
            0 <= fire_rate_ppm <= PPM_SCALE,
            enemy_count <= MAX_STARTUP_ENEMIES,
            half_w == vp.width / 2,
            half_h == vp.height / 2,
            c <= enemy_count,
            out@.len() == c,
            s0.len() <= reg@.len(),
            forall|k: int|
                0 <= k < c ==> valid_id(reg@, #[trigger] out@[k])
                    && startup_enemy_slot(reg@[out@[k].index as int], *vp, fire_rate_ppm, k),
            forall|k: int, l: int| 0 <= k < l < c ==> out@[k].index != out@[l].index,
            forall|j: int|
                0 <= j < s0.len() && s0[j].alive ==> #[trigger] reg@[j] == s0[j],
        decreases enemy_count - c,
    {
        let x = gen_range_i64(-half_w, half_w);
        let y: i64 = half_h - ENEMY_VERT_SPACING * (c as i64 + 1);
        let ghost pre: Seq<SlotModel> = reg@;
        let id = reg.spawn(
            Position { x, y, depth: 0 },
            Some(CollisionBox { width: 15, height: 15 }),
            Some(Health { health: DEFAULT_INIT_HEALTH }),
            None,
            Some(Shooter { ammo_count: DEFAULT_AMMO_COUNT, fire_rate_ppm }),
            None,
            Some(Enemy { move_direction: Direction::Right, move_speed: DEFAULT_MOVE_SPEED }),
        );
        out.push(id);
        proof {
            let t = crate::registry::spawn_index(pre);
            assert(startup_enemy_slot(reg@[id.index as int], *vp, fire_rate_ppm, c as int));
            assert forall|k: int| 0 <= k < c + 1 implies valid_id(reg@, #[trigger] out@[k])
                && startup_enemy_slot(reg@[out@[k].index as int], *vp, fire_rate_ppm, k) by {
                if k < c {
                    assert(valid_id(pre, out@[k]));
                    assert(reg@[out@[k].index as int] == pre[out@[k].index as int]);
                } else {
                    assert(out@[k] == id);
                }
            }
            assert forall|k: int, l: int| 0 <= k < l < c + 1 implies out@[k].index
                != out@[l].index by {
                if l == c {
                    assert(valid_id(pre, out@[k]));
                    assert(!pre[id.index as int].alive || t == pre.len());
                }
            }
            assert forall|j: int| 0 <= j < s0.len() && s0[j].alive
                implies #[trigger] reg@[j] == s0[j] by {
                if j == t {
                    assert(pre[j] == s0[j]);
                    assert(!pre[t].alive || t == pre.len());
                    assert(false);
                } else {
                    assert(reg@[j] == pre[j]);
                }
            }
        }
        c += 1;
    }
    out
}

} // verus!
