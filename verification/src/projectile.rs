//! The damage-source component and its bundle, projectile motion along a
//! cardinal direction, and expiry of projectiles that leave the playable
//! bounds.

use vstd::prelude::*;

use crate::common::{
    viewport_ok, CollisionBox, Direction, EntityId, Position, Viewport, PPM_SCALE, POS_LIMIT,
};
use crate::registry::{live, slot_ok, Registry, SlotModel};

verus! {

/// Distance a projectile advances per tick, in world units.
pub const PROJECTILE_STEP: i64 = 10;

/// Damage a default projectile deals.
pub const DEFAULT_PROJECTILE_DAMAGE: i64 = 10;

/// A damage source: moves each tick along `direction`, deals `damage` to
/// the health of entities it strikes, never harms its `origin` nor any
/// entity on its `whitelist`.  The speed multiplier (parts per million) is
/// stored as a configuration hook; motion does not apply it.
#[derive(Debug)]
pub struct Projectile {
    pub direction: Direction,
    pub damage: i64,
    pub speed_multiplier_ppm: i64,
    pub origin: Option<EntityId>,
    pub whitelist: Vec<EntityId>,
}

/// Mathematical image of a [`Projectile`]: the whitelist becomes a sequence
/// of entity handles.
#[verifier::ext_equal]
pub ghost struct ProjectileModel {
    pub direction: Direction,
    pub damage: i64,
    pub speed_multiplier_ppm: i64,
    pub origin: Option<EntityId>,
    pub whitelist: Seq<EntityId>,
}

impl View for Projectile {
    type V = ProjectileModel;

    open spec fn view(&self) -> ProjectileModel {
        ProjectileModel {
            direction: self.direction,
            damage: self.damage,
            speed_multiplier_ppm: self.speed_multiplier_ppm,
            origin: self.origin,
            whitelist: self.whitelist@,
        }
    }
}

pub open spec fn projectile_ok(p: ProjectileModel) -> bool {
    0 <= p.damage && 0 <= p.speed_multiplier_ppm
}

impl Default for Projectile {
    /// A default projectile moves down, deals the default damage, has unit
    /// speed multiplier, no origin and an empty whitelist.
    fn default() -> (r: Self)
        ensures
            r@.direction == Direction::Down,
            r@.damage == DEFAULT_PROJECTILE_DAMAGE,
            r@.speed_multiplier_ppm == PPM_SCALE,
            r@.origin is None,
            r@.whitelist == Seq::<EntityId>::empty(),
    {
        Projectile {
            direction: Direction::Down,
            damage: DEFAULT_PROJECTILE_DAMAGE,
            speed_multiplier_ppm: PPM_SCALE,
            origin: None,
            whitelist: Vec::new(),
        }
    }
}

/// Everything a projectile spawns with: the damage source itself, its
/// bounding extent and its starting position.
pub struct ProjectileBundle {
    pub projectile: Projectile,
    pub collision_box: CollisionBox,
    pub position: Position,
}

impl Default for ProjectileBundle {
    /// A default projectile bundle: default projectile, a 10 by 10 extent,
    /// spawned at the origin.
    fn default() -> (r: Self)
        ensures
            r.projectile@.direction == Direction::Down,
            r.projectile@.damage == DEFAULT_PROJECTILE_DAMAGE,
            r.projectile@.origin is None,
            r.projectile@.whitelist == Seq::<EntityId>::empty(),
            r.collision_box == (CollisionBox { width: 10, height: 10 }),
            r.position == (Position { x: 0, y: 0, depth: 0 }),
    {
        ProjectileBundle {
            projectile: Default::default(),
            collision_box: CollisionBox { width: 10, height: 10 },
            position: Position { x: 0, y: 0, depth: 0 },
        }
    }
}

/// Whether a projectile bundle satisfies the spawn boundary's
/// invariants.
pub open spec fn projectile_bundle_ok(b: ProjectileBundle) -> bool {
    &&& crate::common::position_ok(b.position)
    &&& crate::common::collision_box_ok(b.collision_box)
    &&& projectile_ok(b.projectile@)
}

/// Runtime check of [`projectile_ok`], for the spawn boundary.
pub fn projectile_valid(p: &Projectile) -> (r: bool)
    ensures
        r == projectile_ok(p@),
{
    0 <= p.damage && 0 <= p.speed_multiplier_ppm
}

/// Spawn a damage source from a bundle.  A bundle that violates the
/// registry's invariants (non-positive extent, out-of-range position or
/// damage) is rejected with `None` and the registry is unchanged; this is
/// the spawn boundary's validation.
pub fn spawn_projectile(reg: &mut Registry, bundle: ProjectileBundle) -> (r: Option<EntityId>)
    requires
        old(reg).wf(),
    ensures
        final(reg).wf(),
        (r is Some) <==> projectile_bundle_ok(bundle),
        r is None ==> final(reg)@ == old(reg)@,
        r matches Some(id) ==> ({
            &&& final(reg)@ == crate::registry::spawn_model(
                old(reg)@,
                bundle.position,
                Some(bundle.collision_box),
                None,
                Some(bundle.projectile@),
                None,
                None,
                None,
            )
            &&& id == crate::registry::spawned_id(old(reg)@)
            &&& crate::registry::valid_id(final(reg)@, id)
            &&& final(reg)@[id.index as int] == crate::registry::spawn_slot_model(
                old(reg)@,
                bundle.position,
                Some(bundle.collision_box),
                None,
                Some(bundle.projectile@),
                None,
                None,
                None,
            )
            &&& forall|x: crate::common::EntityId|
                crate::registry::valid_id(old(reg)@, x) ==> crate::registry::valid_id(final(reg)@, x)
                    && final(reg)@[x.index as int] == old(reg)@[x.index as int]
        }),
{
    if crate::common::position_valid(&bundle.position)
        && crate::common::collision_box_valid(&bundle.collision_box)
        && projectile_valid(&bundle.projectile) {
        Some(
            reg.spawn(
                bundle.position,
                Some(bundle.collision_box),
                None,
                Some(bundle.projectile),
                None,
                None,
                None,
            ),
        )
    } else {
        None
    }
}

/// A coordinate clamped into the representable position range.
pub open spec fn clamp_coord_spec(v: int) -> i64 {
    if v > POS_LIMIT {
        POS_LIMIT as i64
    } else if v < -POS_LIMIT {
        (-POS_LIMIT) as i64
    } else {
        v as i64
    }
}

/// A position advanced one projectile step along a cardinal direction:
/// up and down move along y, left and right along x; depth never changes.
pub open spec fn stepped_position(p: Position, dir: Direction) -> Position {
    match dir {
        Direction::Up => Position { y: clamp_coord_spec(p.y + PROJECTILE_STEP), ..p },
        Direction::Down => Position { y: clamp_coord_spec(p.y - PROJECTILE_STEP), ..p },
        Direction::Left => Position { x: clamp_coord_spec(p.x - PROJECTILE_STEP), ..p },
        Direction::Right => Position { x: clamp_coord_spec(p.x + PROJECTILE_STEP), ..p },
    }
}

/// A slot after one motion step: live damage sources advance along their
/// stored direction; everything else is untouched.  The stored speed
/// multiplier is deliberately not applied; the step is a fixed per-tick
/// constant.
pub open spec fn moved_slot(m: SlotModel) -> SlotModel {
    if m.alive && m.projectile is Some {
        SlotModel { position: stepped_position(m.position, m.projectile->0.direction), ..m }
    } else {
        m
    }
}

/// The registry model after one motion step.
pub open spec fn move_all(s: Seq<SlotModel>) -> Seq<SlotModel> {
    Seq::new(s.len(), |i: int| moved_slot(s[i]))
}

/// Whether a position lies outside the playable bounds of the viewport.
pub open spec fn out_of_bounds(p: Position, vp: Viewport) -> bool {
    p.x > vp.width || p.x < -vp.width || p.y > vp.height || p.y < -vp.height
}

/// A slot after expiry: a live damage source outside the playable bounds
/// goes dead; everything else is untouched.
pub open spec fn expired_slot(m: SlotModel, vp: Viewport) -> SlotModel {
    if m.alive && m.projectile is Some && out_of_bounds(m.position, vp) {
        SlotModel { alive: false, ..m }
    } else {
        m
    }
}

/// The registry model after expiry.
pub open spec fn expire_all(s: Seq<SlotModel>, vp: Viewport) -> Seq<SlotModel> {
    Seq::new(s.len(), |i: int| expired_slot(s[i], vp))
}

/// Clamp a coordinate into the representable position range.
pub(crate) fn clamp_coord(v: i64) -> (r: i64)
    ensures
        r == clamp_coord_spec(v as int),
{
    if v > POS_LIMIT {
        POS_LIMIT
    } else if v < -POS_LIMIT {
        -POS_LIMIT
    } else {
        v
    }
}

/// Advance every live damage source one fixed step along its stored
/// cardinal direction.  Motion touches positions only; it never despawns
/// and never mutates health.
pub fn projectile_move_sys(reg: &mut Registry)
    requires
        old(reg).wf(),
    ensures
        final(reg).wf(),
        final(reg)@ == move_all(old(reg)@),
{
    let n: usize = reg.len();
    let mut i: usize = 0;
    while i < n
        invariant
            reg.wf(),
            n == reg@.len(),
            i <= n,
            forall|j: int| 0 <= j < i ==> reg@[j] == moved_slot(#[trigger] old(reg)@[j]),
            forall|j: int| i <= j < n ==> reg@[j] == old(reg)@[j],
        decreases n - i,
    {
        if reg.is_live(i) && reg.is_projectile(i) {
            proof {
                assert(live(reg@, i as int));
                assert(slot_ok(reg@[i as int]));
            }
            let dir = reg.projectile_direction(i);
            let p = reg.position_at(i);
            let np = match dir {
                Direction::Up => Position { y: clamp_coord(p.y + PROJECTILE_STEP), ..p },
                Direction::Down => Position { y: clamp_coord(p.y - PROJECTILE_STEP), ..p },
                Direction::Left => Position { x: clamp_coord(p.x - PROJECTILE_STEP), ..p },
                Direction::Right => Position { x: clamp_coord(p.x + PROJECTILE_STEP), ..p },
            };
            proof {
                assert(np == stepped_position(p, dir));
            }
            reg.set_position(i, np);
        }
        i += 1;
    }
    proof {
        assert(reg@ =~~= move_all(old(reg)@));
    }
}

/// Despawn every live damage source whose position lies outside the
/// playable bounds.  Runs after motion and before detection, so an
/// expired projectile never produces a collision event in the same tick.
pub fn projectile_remove_sys(reg: &mut Registry, vp: &Viewport)
    requires
        old(reg).wf(),
        viewport_ok(*vp),
    ensures
        final(reg).wf(),
        final(reg)@ == expire_all(old(reg)@, *vp),
{
    let n: usize = reg.len();
    let mut i: usize = 0;
    while i < n
        invariant
            reg.wf(),
            n == reg@.len(),
            i <= n,
            viewport_ok(*vp),
            forall|j: int| 0 <= j < i ==> reg@[j] == expired_slot(#[trigger] old(reg)@[j], *vp),
            forall|j: int| i <= j < n ==> reg@[j] == old(reg)@[j],
        decreases n - i,
    {
        if reg.is_live(i) && reg.is_projectile(i) {
            let p = reg.position_at(i);
            if p.x > vp.width || p.x < -vp.width || p.y > vp.height || p.y < -vp.height {
                reg.kill_at(i);
            }
        }
        i += 1;
    }
    proof {
        assert(reg@ =~~= expire_all(old(reg)@, *vp));
    }
}

} // verus!
