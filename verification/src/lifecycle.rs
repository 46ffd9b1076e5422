//! The lifecycle reaper: despawns every live entity whose health has
//! dropped to zero or below.  It runs strictly after combat resolution in
//! the tick, so damage applied this tick is visible to it, and it is the
//! only component that removes health-exhausted entities.

use vstd::prelude::*;

use crate::registry::{Registry, SlotModel};

verus! {

/// A slot after one pass of the reaper: a live slot with exhausted health
/// goes dead; everything else is untouched.
pub open spec fn reaped_slot(m: SlotModel) -> SlotModel {
    if m.alive && (m.health matches Some(h) && h.health <= 0) {
        SlotModel { alive: false, ..m }
    } else {
        m
    }
}

/// The registry model after one pass of the reaper.
pub open spec fn reap_all(s: Seq<SlotModel>) -> Seq<SlotModel> {
    Seq::new(s.len(), |i: int| reaped_slot(s[i]))
}

/// Despawn every live entity whose health is zero or below.  Removing an
/// already-removed entity is a no-op, so reaping is idempotent.
pub fn health_event_sys(reg: &mut Registry)
    requires
        old(reg).wf(),
    ensures
        final(reg).wf(),
        final(reg)@ == reap_all(old(reg)@),
{
    let n: usize = reg.len();
    let mut i: usize = 0;
    while i < n
        invariant
            reg.wf(),
            n == reg@.len(),
            i <= n,
            forall|j: int| 0 <= j < i ==> reg@[j] == reaped_slot(#[trigger] old(reg)@[j]),
            forall|j: int| i <= j < n ==> reg@[j] == old(reg)@[j],
        decreases n - i,
    {
        if reg.is_live(i) {
            match reg.health_at(i) {
                Some(h) => {
                    if h.health <= 0 {
                        reg.kill_at(i);
                    }
                },
                None => {},
            }
        }
        i += 1;
    }
    proof {
        assert(reg@ =~~= reap_all(old(reg)@));
    }
}

/// Law: reaping is idempotent — running the reaper twice without
/// intervening damage leaves exactly the registry one run produces.
pub proof fn lemma_reap_idempotent(s: Seq<SlotModel>)
    ensures
        reap_all(reap_all(s)) == reap_all(s),
{
    assert(reap_all(reap_all(s)) =~~= reap_all(s));
}

} // verus!
