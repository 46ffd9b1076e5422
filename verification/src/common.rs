//! Shared component types of the combat core: positions, bounding extents,
//! health, shooters, directions, contact sides, entity handles and the
//! viewport, together with the bounds that registry well-formedness imposes
//! on each of them.

use vstd::prelude::*;

verus! {

/// Coordinates of live entities stay within this bound; projectile motion
/// clamps here, far outside any viewport, so positions never overflow.
pub const POS_LIMIT: i64 = 1_000_000_000_000;

/// Upper bound on viewport width and height.
pub const VIEW_LIMIT: i64 = 1_000_000_000;

/// Upper bound on bounding-extent width and height.
pub const EXTENT_LIMIT: i64 = 1_000_000;

/// Upper bound on an enemy's per-tick movement step.
pub const SPEED_LIMIT: i64 = 1_000_000;

/// Fire rates are probabilities expressed in parts per million.
pub const PPM_SCALE: i64 = 1_000_000;

/// Health a freshly spawned entity starts with.
pub const DEFAULT_INIT_HEALTH: i64 = 100;

/// Ammunition a freshly spawned shooter starts with.
pub const DEFAULT_AMMO_COUNT: i64 = 10;

/// Default per-tick fire probability, in parts per million (1%).
pub const DEFAULT_FIRE_RATE_PPM: i64 = 10_000;

/// Score credited to a damage source's origin for a qualifying strike.
pub const SCORE_AWARD: i64 = 10;

/// Stable handle to a registry slot: an index plus the generation the slot
/// had when the entity was spawned.  A handle to a despawned entity fails
/// validation even if the slot was reused, because reuse bumps the
/// generation.
#[derive(Clone, Copy, PartialEq, Eq, Structural, Debug)]
pub struct EntityId {
    pub index: usize,
    pub generation: u64,
}

/// Centre of an entity's axis-aligned bounding box; `depth` is kept for the
/// presentation layer's draw ordering and ignored by collision logic.
#[derive(Clone, Copy, PartialEq, Eq, Structural, Debug)]
pub struct Position {
    pub x: i64,
    pub y: i64,
    pub depth: i64,
}

/// Width and height of an axis-aligned bounding box centred on the entity's
/// position.  Both must be positive.
#[derive(Clone, Copy, PartialEq, Eq, Structural, Debug)]
pub struct CollisionBox {
    pub width: i64,
    pub height: i64,
}

/// Mutable integer health of an entity; it may go negative transiently
/// within a tick before the reaper runs.
#[derive(Clone, Copy, PartialEq, Eq, Structural, Debug)]
pub struct Health {
    pub health: i64,
}

/// A turret: advisory ammunition count and a per-tick random-fire
/// probability in parts per million.
#[derive(Clone, Copy, PartialEq, Eq, Structural, Debug)]
pub struct Shooter {
    pub ammo_count: i64,
    pub fire_rate_ppm: i64,
}

/// One of the four cardinal movement directions.
#[derive(Clone, Copy, PartialEq, Eq, Structural, Debug)]
pub enum Direction {
    Up,
    Down,
    Left,
    Right,
}

/// The face of the second entity's box that the first entity struck.
#[derive(Clone, Copy, PartialEq, Eq, Structural, Debug)]
pub enum ContactSide {
    Left,
    Right,
    Top,
    Bottom,
}

/// Playable bounds: a rectangle spanning [-width, width] by
/// [-height, height] around the origin.
#[derive(Clone, Copy, PartialEq, Eq, Structural, Debug)]
pub struct Viewport {
    pub width: i64,
    pub height: i64,
}

pub open spec fn position_ok(p: Position) -> bool {
    -POS_LIMIT <= p.x <= POS_LIMIT && -POS_LIMIT <= p.y <= POS_LIMIT
        && -POS_LIMIT <= p.depth <= POS_LIMIT
}

pub open spec fn collision_box_ok(b: CollisionBox) -> bool {
    0 < b.width <= EXTENT_LIMIT && 0 < b.height <= EXTENT_LIMIT
}

pub open spec fn shooter_ok(s: Shooter) -> bool {
    0 <= s.fire_rate_ppm <= PPM_SCALE
}

pub open spec fn viewport_ok(v: Viewport) -> bool {
    0 < v.width <= VIEW_LIMIT && 0 < v.height <= VIEW_LIMIT
}

impl Direction {
    /// The spec-level mirror of [`Direction::opposite`].
    pub open spec fn opposite_spec(direction: Direction) -> Direction {
        match direction {
            Direction::Up => Direction::Down,
            Direction::Down => Direction::Up,
            Direction::Left => Direction::Right,
            Direction::Right => Direction::Left,
        }
    }

    /// The direction pointing the opposite way.
    pub fn opposite(direction: &Self) -> (r: Self)
        ensures
            r == Self::opposite_spec(*direction),
    {
        match direction {
            Direction::Up => Direction::Down,
            Direction::Down => Direction::Up,
            Direction::Left => Direction::Right,
            Direction::Right => Direction::Left,
        }
    }
}

/// Runtime check of [`position_ok`], for the spawn boundary.
pub fn position_valid(p: &Position) -> (r: bool)
    ensures
        r == position_ok(*p),
{
    -POS_LIMIT <= p.x && p.x <= POS_LIMIT && -POS_LIMIT <= p.y && p.y <= POS_LIMIT
        && -POS_LIMIT <= p.depth && p.depth <= POS_LIMIT
}

/// Runtime check of [`collision_box_ok`], for the spawn boundary.
pub fn collision_box_valid(b: &CollisionBox) -> (r: bool)
    ensures
        r == collision_box_ok(*b),
{
    0 < b.width && b.width <= EXTENT_LIMIT && 0 < b.height && b.height <= EXTENT_LIMIT
}

/// Runtime check of [`shooter_ok`], for the spawn boundary.
pub fn shooter_valid(s: &Shooter) -> (r: bool)
    ensures
        r == shooter_ok(*s),
{
    0 <= s.fire_rate_ppm && s.fire_rate_ppm <= PPM_SCALE
}

impl Default for Health {
    /// A fresh entity starts with the configured initial health.
    fn default() -> (r: Self)
        ensures
            r.health == DEFAULT_INIT_HEALTH,
    {
        Health { health: DEFAULT_INIT_HEALTH }
    }
}

impl Default for Shooter {
    /// A fresh shooter starts with the configured ammunition and fire rate.
    fn default() -> (r: Self)
        ensures
            r.ammo_count == DEFAULT_AMMO_COUNT,
            r.fire_rate_ppm == DEFAULT_FIRE_RATE_PPM,
    {
        Shooter { ammo_count: DEFAULT_AMMO_COUNT, fire_rate_ppm: DEFAULT_FIRE_RATE_PPM }
    }
}

} // verus!
