//! The collision detector: a pairwise scan over all live entities carrying
//! a bounding extent, emitting one event per overlapping unordered pair.
//!
//! Events are oriented by slot index: the entity in the lower slot appears
//! as `a`, the one in the higher slot as `b`, and the contact side is the
//! face of `b` that `a` struck.  Detection reads positions and extents and
//! never mutates the registry.

use vstd::prelude::*;

use crate::common::{ContactSide, EntityId};
use crate::geometry::{collide, contact_of, overlaps};
use crate::registry::{id_at, live, slot_ok, Registry, SlotModel};

verus! {

/// One detected overlap: the face of `b` that `a` struck this tick.
/// Events are tick-scoped and must not outlive the tick that produced
/// them.
#[derive(Clone, Copy, PartialEq, Eq, Structural, Debug)]
pub struct CollisionEvent {
    pub a: EntityId,
    pub b: EntityId,
    pub collision: ContactSide,
}

/// Whether slot `i` takes part in collision detection: live and carrying
/// a bounding extent.
pub open spec fn collidable(s: Seq<SlotModel>, i: int) -> bool {
    live(s, i) && s[i].collision_box is Some
}

/// Whether the entities in slots `i` and `j` overlap this tick.
pub open spec fn pair_overlaps(s: Seq<SlotModel>, i: int, j: int) -> bool {
    &&& collidable(s, i)
    &&& collidable(s, j)
    &&& overlaps(
        s[i].position,
        s[i].collision_box->0,
        s[j].position,
        s[j].collision_box->0,
    )
}

/// The event the detector reports for the overlapping pair `(i, j)`.
pub open spec fn event_at(s: Seq<SlotModel>, i: int, j: int) -> CollisionEvent {
    CollisionEvent {
        a: id_at(s, i),
        b: id_at(s, j),
        collision: contact_of(
            s[i].position,
            s[i].collision_box->0,
            s[j].position,
            s[j].collision_box->0,
        ),
    }
}

/// Whether `e` is a truthful report: an overlapping pair of distinct live
/// entities, oriented low slot to high slot, with the right contact side.
pub open spec fn event_detects(s: Seq<SlotModel>, e: CollisionEvent) -> bool {
    let i = e.a.index as int;
    let j = e.b.index as int;
    &&& 0 <= i < j < s.len()
    &&& pair_overlaps(s, i, j)
    &&& e == event_at(s, i, j)
}

/// Whether two events report the same unordered pair of slots.
pub open spec fn same_pair(e1: CollisionEvent, e2: CollisionEvent) -> bool {
    e1.a.index == e2.a.index && e1.b.index == e2.b.index
}

/// The detector's contract: every event is truthful, every overlapping
/// pair is reported, and no pair is reported twice.
pub open spec fn detector_post(s: Seq<SlotModel>, events: Seq<CollisionEvent>) -> bool {
    &&& forall|k: int| 0 <= k < events.len() ==> event_detects(s, #[trigger] events[k])
    &&& forall|i: int, j: int|
        0 <= i < j < s.len() && pair_overlaps(s, i, j) ==> events.contains(event_at(s, i, j))
    &&& forall|k: int, l: int|
        0 <= k < l < events.len() ==> !same_pair(events[k], events[l])
}

/// Scan all entities carrying a bounding extent and report every
/// overlapping unordered pair exactly once, with its contact side.
pub fn collision_sys(reg: &Registry) -> (events: Vec<CollisionEvent>)
    requires
        reg.wf(),
    ensures
        detector_post(reg@, events@),
{
    let ghost s: Seq<SlotModel> = reg@;
    let mut events: Vec<CollisionEvent> = Vec::new();
    let n: usize = reg.len();
    let mut i: usize = 0;
    while i < n
        invariant
            reg.wf(),
            s == reg@,
            n == s.len(),
            i <= n,
            forall|k: int| 0 <= k < events@.len() ==> event_detects(s, #[trigger] events@[k]),
            forall|k: int| 0 <= k < events@.len() ==> (#[trigger] events@[k]).a.index < i,
            forall|i2: int, j2: int|
                0 <= i2 < j2 < s.len() && i2 < i && pair_overlaps(s, i2, j2)
                    ==> events@.contains(event_at(s, i2, j2)),
            forall|k: int, l: int|
                0 <= k < l < events@.len() ==> !same_pair(events@[k], events@[l]),
        decreases n - i,
    {
        if slot_collidable(reg, i) {
            let pa = reg.position_at(i);
            let ba = match reg.box_at(i) {
                Some(b) => b,
                None => crate::common::CollisionBox { width: 1, height: 1 },
            };
            let ida = reg.entity_at(i);
            let mut j: usize = i + 1;
            while j < n
                invariant
                    reg.wf(),
                    s == reg@,
                    n == s.len(),
                    i < n,
                    i + 1 <= j <= n,
                    collidable(s, i as int),
                    pa == s[i as int].position,
                    Some(ba) == s[i as int].collision_box,
                    ida == id_at(s, i as int),
                    forall|k: int|
                        0 <= k < events@.len() ==> event_detects(s, #[trigger] events@[k]),
                    forall|k: int|
                        0 <= k < events@.len() ==> (#[trigger] events@[k]).a.index < i
                            || ((#[trigger] events@[k]).a.index == i
                                && (#[trigger] events@[k]).b.index < j),
                    forall|i2: int, j2: int|
                        0 <= i2 < j2 < s.len() && i2 < i && pair_overlaps(s, i2, j2)
                            ==> events@.contains(event_at(s, i2, j2)),
                    forall|j2: int|
                        (i as int) < j2 < j && pair_overlaps(s, i as int, j2)
                            ==> events@.contains(event_at(s, i as int, j2)),
                    forall|k: int, l: int|
                        0 <= k < l < events@.len() ==> !same_pair(events@[k], events@[l]),
                decreases n - j,
            {
                if slot_collidable(reg, j) {
                    let pb = reg.position_at(j);
                    let bb = match reg.box_at(j) {
                        Some(b) => b,
                        None => crate::common::CollisionBox { width: 1, height: 1 },
                    };
                    proof {
                        assert(live(s, i as int) && live(s, j as int));
                        assert(slot_ok(s[i as int]));
                        assert(slot_ok(s[j as int]));
                    }
                    match collide(pa, ba, pb, bb) {
                        Some(side) => {
                            let idb = reg.entity_at(j);
                            let e = CollisionEvent { a: ida, b: idb, collision: side };
                            proof {
                                assert(e == event_at(s, i as int, j as int));
                                assert(event_detects(s, e));
                            }
                            let ghost before = events@;
                            events.push(e);
                            proof {
                                assert(events@ == before.push(e));
                                assert forall|i2: int, j2: int|
                                    0 <= i2 < j2 < s.len() && i2 < i && pair_overlaps(s, i2, j2)
                                        implies events@.contains(event_at(s, i2, j2)) by {
                                    assert(before.contains(event_at(s, i2, j2)));
                                    let k = choose|k: int|
                                        0 <= k < before.len() && before[k] == event_at(s, i2, j2);
                                    assert(events@[k] == event_at(s, i2, j2));
                                }
                                assert forall|j2: int|
                                    (i as int) < j2 < j + 1 && pair_overlaps(s, i as int, j2)
                                        implies events@.contains(event_at(s, i as int, j2)) by {
                                    if j2 < j {
                                        assert(before.contains(event_at(s, i as int, j2)));
                                        let k = choose|k: int|
                                            0 <= k < before.len() && before[k] == event_at(
                                                s,
                                                i as int,
                                                j2,
                                            );
                                        assert(events@[k] == event_at(s, i as int, j2));
                                    } else {
                                        assert(events@[events@.len() - 1] == event_at(
                                            s,
                                            i as int,
                                            j as int,
                                        ));
                                    }
                                }
                            }
                        },
                        None => {
                            proof {
                                assert(!pair_overlaps(s, i as int, j as int));
                            }
                        },
                    }
                } else {
                    proof {
                        assert(!pair_overlaps(s, i as int, j as int));
                    }
                }
                j += 1;
            }
        } else {
            proof {
                assert(forall|j2: int| (i as int) < j2 < s.len()
                    ==> !pair_overlaps(s, i as int, j2));
            }
        }
        i += 1;
    }
    events
}

/// Whether the entity in slot `i` is live and carries a bounding extent.
fn slot_collidable(reg: &Registry, i: usize) -> (r: bool)
    requires
        reg.wf(),
        i < reg@.len(),
    ensures
        r == collidable(reg@, i as int),
{
    if reg.is_live(i) {
        match reg.box_at(i) {
            Some(_) => true,
            None => false,
        }
    } else {
        false
    }
}

/// Law: in any detector report, each overlapping pair appears exactly
/// once — there is an event for it, and no two distinct events report the
/// same pair, regardless of registry iteration order.
pub proof fn lemma_pair_reported_exactly_once(
    s: Seq<SlotModel>,
    events: Seq<CollisionEvent>,
    i: int,
    j: int,
)
    requires
        detector_post(s, events),
        0 <= i < j < s.len(),
        pair_overlaps(s, i, j),
    ensures
        exists|k: int| 0 <= k < events.len() && events[k] == event_at(s, i, j),
        forall|k: int, l: int|
            0 <= k < events.len() && 0 <= l < events.len() && events[k] == event_at(s, i, j)
                && events[l] == event_at(s, i, j) ==> k == l,
{
    assert(events.contains(event_at(s, i, j)));
    assert forall|k: int, l: int|
        0 <= k < events.len() && 0 <= l < events.len() && events[k] == event_at(s, i, j)
            && events[l] == event_at(s, i, j) implies k == l by {
        if k < l {
            assert(same_pair(events[k], events[l]));
        } else if l < k {
            assert(same_pair(events[l], events[k]));
        }
    }
}

/// Law: no entity collides with itself — every reported event pairs two
/// distinct entities.
pub proof fn lemma_no_self_collision(s: Seq<SlotModel>, events: Seq<CollisionEvent>)
    requires
        detector_post(s, events),
    ensures
        forall|k: int| 0 <= k < events.len() ==> (#[trigger] events[k]).a != events[k].b,
{
    assert forall|k: int| 0 <= k < events.len() implies (#[trigger] events[k]).a
        != events[k].b by {
        assert(event_detects(s, events[k]));
        assert(events[k].a.index < events[k].b.index);
    }
}

} // verus!
