//! The combat resolver: consumes the tick's collision events in order,
//! applies the damage taxonomy and emits hit events.
//!
//! For each event, both orientations of the pair are tried: whichever side
//! carries a damage source resolves against the other.  Per orientation,
//! in order: the source's own origin is exempt; whitelisted entities are
//! exempt; otherwise a hit event is emitted, and if the target carries
//! health it takes the source's damage, the source is consumed
//! (despawned), and if the source's origin still resolves to a live score
//! holder that holder is credited.  Scoring is driven by collision events
//! alone; hit events are informational, for downstream listeners.
//!
//! Failed lookups (stale handles, missing components) skip the rule
//! silently; the resolver never despawns the struck entity — that is the
//! lifecycle reaper's job.

use vstd::prelude::*;

use crate::collision::CollisionEvent;
use crate::common::{EntityId, Health};
use crate::player::Player;
use crate::lifecycle::reap_all;
use crate::registry::{
    apply_damage, award_score, kill_model, valid_id, Registry, SlotModel,
};

verus! {

/// One resolved contact: `projectile` struck `other` this tick.  Emitted
/// for every non-exempt contact of a damage source, whether or not damage
/// was applied.  Tick-scoped, like collision events.
#[derive(Clone, Copy, PartialEq, Eq, Structural, Debug)]
pub struct ProjectileHitEvent {
    pub projectile: EntityId,
    pub other: EntityId,
}

/// Whether the orientation `src` strikes `tgt` is considered at all:
/// both handles must be live, distinct, and `src` must carry a damage
/// source.
pub open spec fn orient_active(s: Seq<SlotModel>, src: EntityId, tgt: EntityId) -> bool {
    &&& valid_id(s, src)
    &&& valid_id(s, tgt)
    &&& src != tgt
    &&& s[src.index as int].projectile is Some
}

/// Whether `tgt` is exempt from `src`'s damage: it is the source's own
/// origin, or on the source's whitelist.
pub open spec fn strike_exempt(s: Seq<SlotModel>, src: EntityId, tgt: EntityId) -> bool {
    match s[src.index as int].projectile {
        Some(p) => p.origin == Some(tgt) || p.whitelist.contains(tgt),
        None => true,
    }
}

/// Registry model after resolving the orientation `src` strikes `tgt`:
/// if the strike is active, not exempt, and the target carries health,
/// the target takes the damage, the source is consumed, and the source's
/// origin (if still live) is credited; otherwise nothing changes.
pub open spec fn orient_state(s: Seq<SlotModel>, src: EntityId, tgt: EntityId)
    -> Seq<SlotModel> {
    if orient_active(s, src, tgt) && !strike_exempt(s, src, tgt)
        && s[tgt.index as int].health is Some {
        let p = s[src.index as int].projectile->0;
        let s1 = apply_damage(s, tgt.index as int, p.damage);
        let s2 = kill_model(s1, src.index as int);
        match p.origin {
            Some(o) => if valid_id(s2, o) {
                award_score(s2, o.index as int)
            } else {
                s2
            },
            None => s2,
        }
    } else {
        s
    }
}

/// Hit events emitted for the orientation `src` strikes `tgt`: one event
/// for every active, non-exempt contact, damage or not.
pub open spec fn orient_hits(s: Seq<SlotModel>, src: EntityId, tgt: EntityId)
    -> Seq<ProjectileHitEvent> {
    if orient_active(s, src, tgt) && !strike_exempt(s, src, tgt) {
        seq![ProjectileHitEvent { projectile: src, other: tgt }]
    } else {
        Seq::empty()
    }
}

/// Registry model after resolving one collision event, both orientations
/// in order.
pub open spec fn event_state(s: Seq<SlotModel>, e: CollisionEvent) -> Seq<SlotModel> {
    orient_state(orient_state(s, e.a, e.b), e.b, e.a)
}

/// Hit events emitted for one collision event.
pub open spec fn event_hits(s: Seq<SlotModel>, e: CollisionEvent) -> Seq<ProjectileHitEvent> {
    orient_hits(s, e.a, e.b) + orient_hits(orient_state(s, e.a, e.b), e.b, e.a)
}

/// Registry model after resolving a whole sequence of collision events in
/// order.
pub open spec fn resolve_state(s: Seq<SlotModel>, events: Seq<CollisionEvent>)
    -> Seq<SlotModel>
    decreases events.len(),
{
    if events.len() == 0 {
        s
    } else {
        event_state(resolve_state(s, events.drop_last()), events.last())
    }
}

/// Hit events emitted while resolving a whole sequence of collision
/// events in order.
pub open spec fn resolve_hits(s: Seq<SlotModel>, events: Seq<CollisionEvent>)
    -> Seq<ProjectileHitEvent>
    decreases events.len(),
{
    if events.len() == 0 {
        Seq::empty()
    } else {
        resolve_hits(s, events.drop_last())
            + event_hits(resolve_state(s, events.drop_last()), events.last())
    }
}

/// Resolve one orientation of one event against the registry, appending
/// any hit event to `hits`.
fn resolve_orient(
    reg: &mut Registry,
    hits: &mut Vec<ProjectileHitEvent>,
    src: EntityId,
    tgt: EntityId,
)
    requires
        old(reg).wf(),
    ensures
        final(reg).wf(),
        final(reg)@ == orient_state(old(reg)@, src, tgt),
        final(hits)@ == old(hits)@ + orient_hits(old(reg)@, src, tgt),
{
    let ghost s0 = reg@;
    if reg.is_valid(src) && reg.is_valid(tgt) && !(src == tgt) && reg.is_projectile(src.index) {
        let origin = reg.projectile_origin(src.index);
        let origin_exempt = match origin {
            Some(o) => o == tgt,
            None => false,
        };
        if origin_exempt || reg.whitelist_has(src.index, tgt) {
            proof {
                assert(strike_exempt(s0, src, tgt));
                assert(hits@ =~= old(hits)@ + orient_hits(s0, src, tgt));
            }
        } else {
            proof {
                assert(!strike_exempt(s0, src, tgt));
            }
            hits.push(ProjectileHitEvent { projectile: src, other: tgt });
            proof {
                assert(hits@ =~= old(hits)@ + orient_hits(s0, src, tgt));
            }
            let has_health = match reg.health_at(tgt.index) {
                Some(_) => true,
                None => false,
            };
            if has_health {
                proof {
                    assert(crate::registry::live(s0, src.index as int));
                    assert(crate::registry::slot_ok(s0[src.index as int]));
                }
                let d = reg.projectile_damage(src.index);
                reg.damage_health(tgt.index, d);
                reg.kill_at(src.index);
                match origin {
                    Some(o) => {
                        if reg.is_valid(o) {
                            reg.award_score_at(o.index);
                        }
                    },
                    None => {},
                }
                proof {
                    assert(reg@ =~~= orient_state(s0, src, tgt));
                }
            }
        }
    } else {
        proof {
            assert(!orient_active(s0, src, tgt));
            assert(hits@ =~= old(hits)@ + orient_hits(s0, src, tgt));
        }
    }
}

/// Consume all of this tick's collision events in order, mutate health
/// and score accordingly, and return the emitted hit events.
pub fn combat_resolve_sys(reg: &mut Registry, events: &Vec<CollisionEvent>)
    -> (hits: Vec<ProjectileHitEvent>)
    requires
        old(reg).wf(),
    ensures
        final(reg).wf(),
        final(reg)@ == resolve_state(old(reg)@, events@),
        hits@ == resolve_hits(old(reg)@, events@),
{
    let ghost s0 = reg@;
    let mut hits: Vec<ProjectileHitEvent> = Vec::new();
    let n: usize = events.len();
    let mut k: usize = 0;
    while k < n
        invariant
            reg.wf(),
            n == events@.len(),
            k <= n,
            reg@ == resolve_state(s0, events@.take(k as int)),
            hits@ == resolve_hits(s0, events@.take(k as int)),
        decreases n - k,
    {
        let e = events[k];
        let ghost pre = reg@;
        let ghost hits_pre = hits@;
        resolve_orient(reg, &mut hits, e.a, e.b);
        resolve_orient(reg, &mut hits, e.b, e.a);
        proof {
            let taken = events@.take(k as int + 1);
            assert(taken.drop_last() =~= events@.take(k as int));
            assert(taken.last() == e);
            assert(reg@ == event_state(pre, e));
            assert(hits@ =~= hits_pre + event_hits(pre, e));
            assert(reg@ == resolve_state(s0, taken));
            assert(hits@ == resolve_hits(s0, taken));
        }
        k += 1;
    }
    proof {
        assert(events@.take(n as int) =~= events@);
    }
    hits
}

/// What one orientation step leaves untouched: the registry's length,
/// every generation and every projectile component; liveness only ever
/// shrinks, and health changes only at the struck, non-exempt target.
pub proof fn lemma_orient_frame(s: Seq<SlotModel>, src: EntityId, tgt: EntityId)
    ensures
        orient_state(s, src, tgt).len() == s.len(),
        forall|i: int|
            0 <= i < s.len() ==> (#[trigger] orient_state(s, src, tgt)[i]).projectile
                == s[i].projectile && orient_state(s, src, tgt)[i].generation == s[i].generation
                && (orient_state(s, src, tgt)[i].alive ==> s[i].alive),
        forall|i: int|
            0 <= i < s.len() && (#[trigger] orient_state(s, src, tgt)[i]).health != s[i].health
                ==> i == tgt.index as int && orient_active(s, src, tgt)
                && !strike_exempt(s, src, tgt),
{
}

/// Law: a damage source never damages its own origin.  Whatever event
/// pairs the source `src` with its origin `tgt`, resolving that event
/// leaves the origin's health exactly as it was.
pub proof fn lemma_origin_never_damaged(
    s: Seq<SlotModel>,
    e: CollisionEvent,
    src: EntityId,
    tgt: EntityId,
)
    requires
        (src.index as int) < s.len(),
        (tgt.index as int) < s.len(),
        s[src.index as int].projectile matches Some(p) && p.origin == Some(tgt),
        (e.a == src && e.b == tgt) || (e.a == tgt && e.b == src),
    ensures
        event_state(s, e)[tgt.index as int].health == s[tgt.index as int].health,
{
    let ti = tgt.index as int;
    let s1 = orient_state(s, e.a, e.b);
    lemma_orient_frame(s, e.a, e.b);
    origin_orientation_harmless(s, e.a, e.b, src, tgt);
    assert(s1[src.index as int].projectile == s[src.index as int].projectile);
    origin_orientation_harmless(s1, e.b, e.a, src, tgt);
}

/// Helper: in any state where `src` still carries a projectile whose
/// origin reference is `tgt`, an orientation step over the pair
/// `{src, tgt}` cannot change the health stored in `tgt`'s slot: the
/// direct orientation is exempt by the origin rule, and the reverse one
/// damages `src`'s slot, which is a different slot.
proof fn origin_orientation_harmless(
    s: Seq<SlotModel>,
    x: EntityId,
    y: EntityId,
    src: EntityId,
    tgt: EntityId,
)
    requires
        (x == src && y == tgt) || (x == tgt && y == src),
        (src.index as int) < s.len(),
        s[src.index as int].projectile matches Some(p) && p.origin == Some(tgt),
    ensures
        (tgt.index as int) < s.len() ==> orient_state(s, x, y)[tgt.index as int].health
            == s[tgt.index as int].health,
{
    let ti = tgt.index as int;
    lemma_orient_frame(s, x, y);
    if 0 <= ti < s.len() && orient_state(s, x, y)[ti].health != s[ti].health {
        assert(ti == y.index as int);
        assert(orient_active(s, x, y));
        assert(!strike_exempt(s, x, y));
        if x == src {
            // The direct orientation: src's origin reference names tgt, so
            // the origin-exemption rule applies.
            assert(strike_exempt(s, src, tgt));
            assert(false);
        } else {
            // The reverse orientation damages src's slot; health changed
            // in tgt's slot, so the two handles share a slot — but both
            // are live in it, so they are the same handle, and an
            // orientation never pairs a handle with itself.
            assert(valid_id(s, x) && valid_id(s, y));
            assert(x.index == y.index);
            assert(s[ti].generation == x.generation && s[ti].generation == y.generation);
            assert(x == y);
            assert(false);
        }
    }
}

/// Law: a damage source is never resolved against an entity on its
/// whitelist — the orientation is skipped whole: no state change, no hit
/// event.
pub proof fn lemma_whitelist_exempt(s: Seq<SlotModel>, src: EntityId, tgt: EntityId)
    requires
        (src.index as int) < s.len(),
        s[src.index as int].projectile matches Some(p) && p.whitelist.contains(tgt),
    ensures
        orient_state(s, src, tgt) == s,
        orient_hits(s, src, tgt) == Seq::<ProjectileHitEvent>::empty(),
{
    assert(strike_exempt(s, src, tgt));
}

/// Whether every damage source in the registry whitelists `t`.
pub open spec fn all_sources_whitelist(s: Seq<SlotModel>, t: EntityId) -> bool {
    forall|i: int|
        0 <= i < s.len() && (#[trigger] s[i]).projectile is Some
            ==> s[i].projectile->0.whitelist.contains(t)
}

/// Law: over a whole tick's resolution, whatever the events, the health
/// of a live entity that every damage source whitelists is unchanged.
pub proof fn lemma_whitelist_protects_tick(
    s: Seq<SlotModel>,
    events: Seq<CollisionEvent>,
    t: EntityId,
)
    requires
        valid_id(s, t),
        all_sources_whitelist(s, t),
    ensures
        resolve_state(s, events).len() == s.len(),
        forall|i: int|
            0 <= i < s.len() ==> (#[trigger] resolve_state(s, events)[i]).projectile
                == s[i].projectile && resolve_state(s, events)[i].generation == s[i].generation,
        resolve_state(s, events)[t.index as int].health == s[t.index as int].health,
    decreases events.len(),
{
    if events.len() > 0 {
        lemma_whitelist_protects_tick(s, events.drop_last(), t);
        let prev = resolve_state(s, events.drop_last());
        let e = events.last();
        let mid = orient_state(prev, e.a, e.b);
        lemma_orient_frame(prev, e.a, e.b);
        lemma_orient_frame(mid, e.b, e.a);
        whitelist_orientation_harmless(s, prev, e.a, e.b, t);
        assert forall|i: int| 0 <= i < s.len()
            implies (#[trigger] mid[i]).projectile == s[i].projectile
                && mid[i].generation == s[i].generation by {
            assert(prev[i].projectile == s[i].projectile);
        }
        whitelist_orientation_harmless(s, mid, e.b, e.a, t);
    }
}

/// Helper: in any resolution state that keeps the tick-start registry's
/// generations and projectile components, an orientation step cannot
/// change the health in the slot of a whitelisted live entity.
proof fn whitelist_orientation_harmless(
    s: Seq<SlotModel>,
    cur: Seq<SlotModel>,
    x: EntityId,
    y: EntityId,
    t: EntityId,
)
    requires
        valid_id(s, t),
        all_sources_whitelist(s, t),
        cur.len() == s.len(),
        forall|i: int|
            0 <= i < s.len() ==> (#[trigger] cur[i]).projectile == s[i].projectile
                && cur[i].generation == s[i].generation,
    ensures
        orient_state(cur, x, y)[t.index as int].health == cur[t.index as int].health,
{
    let ti = t.index as int;
    lemma_orient_frame(cur, x, y);
    if orient_state(cur, x, y)[ti].health != cur[ti].health {
        assert(ti == y.index as int);
        assert(orient_active(cur, x, y));
        assert(!strike_exempt(cur, x, y));
        // The struck handle y is live in t's slot, whose generation is
        // still the tick-start one, so y is t itself; and the striking
        // source's projectile is a tick-start one, which whitelists t.
        assert(valid_id(cur, y));
        assert(cur[ti].generation == y.generation);
        assert(s[ti].generation == t.generation);
        assert(y == t);
        assert(cur[x.index as int].projectile is Some);
        assert(s[x.index as int].projectile is Some);
        assert(s[x.index as int].projectile->0.whitelist.contains(t));
        assert(strike_exempt(cur, x, y));
        assert(false);
    }
}

/// Law: damage ordering and scoring.  A resolved, non-exempt strike of
/// damage `d` on a target with health `h` leaves the target's health
/// exactly `h - d` and the target still present — visible to every
/// same-tick consumer — while the source is consumed; if the source's
/// origin is a live score holder other than the source itself, its score
/// takes exactly the award; and the reaper, running after resolution,
/// then removes the target in the same tick exactly when `h - d <= 0`.
pub proof fn lemma_damage_then_reap(s: Seq<SlotModel>, src: EntityId, tgt: EntityId)
    requires
        crate::registry::wf_model(s),
        valid_id(s, src),
        valid_id(s, tgt),
        src != tgt,
        s[src.index as int].projectile is Some,
        !strike_exempt(s, src, tgt),
        s[tgt.index as int].health is Some,
        s[tgt.index as int].health->0.health - s[src.index as int].projectile->0.damage
            >= i64::MIN,
    ensures
        ({
            let r = orient_state(s, src, tgt);
            let h = s[tgt.index as int].health->0.health;
            let d = s[src.index as int].projectile->0.damage;
            &&& r[tgt.index as int].health == Some(Health { health: (h - d) as i64 })
            &&& r[tgt.index as int].alive
            &&& !r[src.index as int].alive
            &&& orient_hits(s, src, tgt) == seq![
                ProjectileHitEvent { projectile: src, other: tgt },
            ]
            &&& (h - d <= 0 ==> !reap_all(r)[tgt.index as int].alive)
            &&& (h - d > 0 ==> reap_all(r)[tgt.index as int].alive)
            &&& (s[src.index as int].projectile->0.origin matches Some(o)
                ==> ((valid_id(s, o) && o != src && s[o.index as int].player is Some)
                    ==> r[o.index as int].player == Some(Player {
                        score: crate::registry::award_result(s[o.index as int].player->0.score),
                    })))
        }),
{
    let ti = tgt.index as int;
    let si = src.index as int;
    assert(si != ti) by {
        if si == ti {
            assert(s[ti].generation == src.generation && s[ti].generation == tgt.generation);
            assert(src == tgt);
        }
    };
    assert(orient_active(s, src, tgt));
    assert(crate::registry::slot_ok(s[si]) && crate::registry::slot_ok(s[ti]));
    let p = s[si].projectile->0;
    let h = s[ti].health->0.health;
    let s1 = apply_damage(s, ti, p.damage);
    assert(s1[ti].health == Some(Health { health: (h - p.damage) as i64 }));
    assert(s1[ti].alive && s1[si] == s[si]);
    let s2 = kill_model(s1, si);
    assert(s2[ti] == s1[ti] && !s2[si].alive);
    let r = orient_state(s, src, tgt);
    match p.origin {
        Some(o) => {
            if valid_id(s, o) && o != src {
                // The origin sits in its own slot: not the source's (the
                // handles differ but are both live) and not the target's
                // (the origin exemption would have applied).
                assert(o.index as int != si) by {
                    if o.index as int == si {
                        assert(s[si].generation == o.generation
                            && s[si].generation == src.generation);
                        assert(o == src);
                    }
                };
                assert(o.index as int != ti) by {
                    if o.index as int == ti {
                        assert(s[ti].generation == o.generation
                            && s[ti].generation == tgt.generation);
                        assert(o == tgt);
                        assert(strike_exempt(s, src, tgt));
                    }
                };
                assert(s2[o.index as int] == s[o.index as int]);
                assert(valid_id(s2, o));
                assert(r == award_score(s2, o.index as int));
                assert(r[ti].health == s2[ti].health && r[ti].alive == s2[ti].alive);
                assert(!r[si].alive);
            } else if valid_id(s2, o) {
                assert(r == award_score(s2, o.index as int));
                assert(r[ti].health == s2[ti].health && r[ti].alive == s2[ti].alive);
                assert(!r[si].alive);
            } else {
                assert(r == s2);
            }
        },
        None => {
            assert(r == s2);
        },
    }
    assert(reap_all(r)[ti] == crate::lifecycle::reaped_slot(r[ti]));
}

} // verus!
