//! One simulation tick: the four phases in their fixed order.
//!
//! Motion advances projectiles, expiry removes the ones that left the
//! playable bounds, detection reports every overlapping pair exactly
//! once, resolution applies damage and scoring, and the reaper despawns
//! entities whose health is exhausted.  The ordering is part of the
//! contract: detection sees post-expiry positions, and reaping sees
//! post-resolution health.

use vstd::prelude::*;

use crate::collision::{collision_sys, detector_post, CollisionEvent};
use crate::combat::{combat_resolve_sys, resolve_hits, resolve_state, ProjectileHitEvent};
use crate::common::{viewport_ok, Viewport};
use crate::lifecycle::{health_event_sys, reap_all};
use crate::projectile::{expire_all, move_all, projectile_move_sys, projectile_remove_sys};
use crate::registry::Registry;

verus! {

/// The two event streams a tick produces, readable by downstream
/// listeners within the same tick only.
pub struct TickEvents {
    pub collisions: Vec<CollisionEvent>,
    pub hits: Vec<ProjectileHitEvent>,
}

/// Run one full tick over the registry: motion, expiry, detection,
/// resolution, reaping, in that order.  Returns the tick's collision and
/// hit events; the registry ends in the reaped post-resolution state.
pub fn run_tick(reg: &mut Registry, vp: &Viewport) -> (r: TickEvents)
    requires
        old(reg).wf(),
        viewport_ok(*vp),
    ensures
        final(reg).wf(),
        ({
            let scanned = expire_all(move_all(old(reg)@), *vp);
            &&& detector_post(scanned, r.collisions@)
            &&& r.hits@ == resolve_hits(scanned, r.collisions@)
            &&& final(reg)@ == reap_all(resolve_state(scanned, r.collisions@))
        }),
{
    projectile_move_sys(reg);
    projectile_remove_sys(reg, vp);
    let collisions = collision_sys(reg);
    let hits = combat_resolve_sys(reg, &collisions);
    health_event_sys(reg);
    TickEvents { collisions, hits }
}

} // verus!
