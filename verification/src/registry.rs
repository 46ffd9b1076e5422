//! The entity registry: an arena of slots addressed by generation-checked
//! handles.  Each slot carries a position and optional gameplay components.
//! Despawning marks a slot dead; spawning reuses the first dead slot and
//! bumps its generation, so stale handles to despawned entities always fail
//! validation.
//!
//! The registry's mathematical image is a sequence of [`SlotModel`]s; every
//! operation's contract is stated over that sequence.

use vstd::prelude::*;

use crate::common::{
    collision_box_ok, position_ok, shooter_ok, CollisionBox, EntityId, Health, Position, Shooter,
    SCORE_AWARD,
};
use crate::enemy::{enemy_ok, Enemy};
use crate::player::Player;
use crate::projectile::{projectile_ok, Projectile, ProjectileModel};

verus! {

/// Mathematical image of one registry slot.
#[verifier::ext_equal]
pub ghost struct SlotModel {
    pub alive: bool,
    pub generation: u64,
    pub position: Position,
    pub collision_box: Option<CollisionBox>,
    pub health: Option<Health>,
    pub projectile: Option<ProjectileModel>,
    pub shooter: Option<Shooter>,
    pub player: Option<Player>,
    pub enemy: Option<Enemy>,
}

/// Whether slot `i` exists and holds a live entity.
pub open spec fn live(s: Seq<SlotModel>, i: int) -> bool {
    0 <= i < s.len() && s[i].alive
}

/// Whether `id` is a handle to a live entity: the slot must be live and
/// still carry the generation the handle was issued with.
pub open spec fn valid_id(s: Seq<SlotModel>, id: EntityId) -> bool {
    &&& (id.index as int) < s.len()
    &&& s[id.index as int].alive
    &&& s[id.index as int].generation == id.generation
}

/// The handle of the entity in slot `i`.
pub open spec fn id_at(s: Seq<SlotModel>, i: int) -> EntityId {
    EntityId { index: i as usize, generation: s[i].generation }
}

/// Bounds every component of a live slot must respect.
pub open spec fn slot_ok(m: SlotModel) -> bool {
    &&& position_ok(m.position)
    &&& (m.collision_box matches Some(b) ==> collision_box_ok(b))
    &&& (m.projectile matches Some(p) ==> projectile_ok(p))
    &&& (m.shooter matches Some(t) ==> shooter_ok(t))
    &&& (m.enemy matches Some(e) ==> enemy_ok(e))
}

/// Well-formedness of the registry model: every live slot is within
/// bounds.
pub open spec fn wf_model(s: Seq<SlotModel>) -> bool {
    forall|i: int| live(s, i) ==> slot_ok(#[trigger] s[i])
}

/// The health value of the entity `id`, if `id` is a live handle and the
/// entity carries health.
pub open spec fn health_lookup(s: Seq<SlotModel>, id: EntityId) -> Option<i64> {
    if valid_id(s, id) {
        match s[id.index as int].health {
            Some(h) => Some(h.health),
            None => None,
        }
    } else {
        None
    }
}

/// The score of the entity `id`, if `id` is a live handle and the entity
/// is a score holder.
pub open spec fn score_lookup(s: Seq<SlotModel>, id: EntityId) -> Option<i64> {
    if valid_id(s, id) {
        match s[id.index as int].player {
            Some(p) => Some(p.score),
            None => None,
        }
    } else {
        None
    }
}

/// Health after taking `d` damage: exactly `h - d` whenever that value is
/// representable, saturating at the machine's lowest integer otherwise.
pub open spec fn damage_result(h: i64, d: i64) -> i64 {
    if h - d >= i64::MIN {
        (h - d) as i64
    } else {
        i64::MIN
    }
}

/// Deal `d` damage to the health component of slot `i`; a slot without
/// health is left unchanged.
pub open spec fn apply_damage(s: Seq<SlotModel>, i: int, d: i64) -> Seq<SlotModel> {
    match s[i].health {
        Some(h) => s.update(
            i,
            SlotModel { health: Some(Health { health: damage_result(h.health, d) }), ..s[i] },
        ),
        None => s,
    }
}

/// Mark slot `i` dead, keeping its generation and components.
pub open spec fn kill_model(s: Seq<SlotModel>, i: int) -> Seq<SlotModel> {
    s.update(i, SlotModel { alive: false, ..s[i] })
}

/// Score after one award: exactly `sc + SCORE_AWARD` whenever that value
/// is representable, saturating at the machine's highest integer
/// otherwise.
pub open spec fn award_result(sc: i64) -> i64 {
    if sc + SCORE_AWARD <= i64::MAX {
        (sc + SCORE_AWARD) as i64
    } else {
        i64::MAX
    }
}

/// Credit one award to the score holder in slot `i`; a slot without a
/// score holder is left unchanged.
pub open spec fn award_score(s: Seq<SlotModel>, i: int) -> Seq<SlotModel> {
    match s[i].player {
        Some(p) => s.update(
            i,
            SlotModel { player: Some(Player { score: award_result(p.score) }), ..s[i] },
        ),
        None => s,
    }
}

/// Whether slot `j` can be reused by a spawn: dead, with a generation
/// that can still be bumped.
pub open spec fn spawn_candidate(s: Seq<SlotModel>, j: int) -> bool {
    0 <= j < s.len() && !s[j].alive && s[j].generation < u64::MAX
}

/// Index of the first reusable slot at or after `i`, or the length of the
/// registry if none exists (a spawn then appends).
pub open spec fn spawn_index_from(s: Seq<SlotModel>, i: int) -> int
    decreases s.len() - i when 0 <= i <= s.len()
{
    if i >= s.len() {
        s.len() as int
    } else if !s[i].alive && s[i].generation < u64::MAX {
        i
    } else {
        spawn_index_from(s, i + 1)
    }
}

/// The slot index the next spawn will use.
pub open spec fn spawn_index(s: Seq<SlotModel>) -> int {
    spawn_index_from(s, 0)
}

/// The generation the next spawned entity will carry.
pub open spec fn spawn_generation(s: Seq<SlotModel>) -> u64 {
    if spawn_index(s) == s.len() {
        0u64
    } else {
        (s[spawn_index(s)].generation + 1) as u64
    }
}

/// The handle the next spawn will return.
pub open spec fn spawned_id(s: Seq<SlotModel>) -> EntityId {
    EntityId { index: spawn_index(s) as usize, generation: spawn_generation(s) }
}

/// The slot the next spawn will create from the given components.
pub open spec fn spawn_slot_model(
    s: Seq<SlotModel>,
    position: Position,
    collision_box: Option<CollisionBox>,
    health: Option<Health>,
    projectile: Option<ProjectileModel>,
    shooter: Option<Shooter>,
    player: Option<Player>,
    enemy: Option<Enemy>,
) -> SlotModel {
    SlotModel {
        alive: true,
        generation: spawn_generation(s),
        position,
        collision_box,
        health,
        projectile,
        shooter,
        player,
        enemy,
    }
}

/// Registry model after a spawn: the new slot replaces the first reusable
/// dead slot, or is appended if none exists.
pub open spec fn spawn_model(
    s: Seq<SlotModel>,
    position: Position,
    collision_box: Option<CollisionBox>,
    health: Option<Health>,
    projectile: Option<ProjectileModel>,
    shooter: Option<Shooter>,
    player: Option<Player>,
    enemy: Option<Enemy>,
) -> Seq<SlotModel> {
    let slot = spawn_slot_model(s, position, collision_box, health, projectile, shooter, player,
        enemy);
    if spawn_index(s) == s.len() {
        s.push(slot)
    } else {
        s.update(spawn_index(s), slot)
    }
}

/// The view of an optional projectile component.
pub open spec fn opt_proj_view(p: Option<Projectile>) -> Option<ProjectileModel> {
    match p {
        Some(q) => Some(q@),
        None => None,
    }
}

proof fn lemma_spawn_index_skip(s: Seq<SlotModel>, k: int)
    requires
        0 <= k <= s.len(),
        forall|j: int| 0 <= j < k ==> !spawn_candidate(s, j),
    ensures
        spawn_index(s) == spawn_index_from(s, k),
    decreases k,
{
    if k > 0 {
        lemma_spawn_index_skip(s, k - 1);
        assert(!spawn_candidate(s, k - 1));
        assert(spawn_index_from(s, k - 1) == spawn_index_from(s, k));
    }
}

/// The set of live entities, each an opaque identifier with a position and
/// optional components.  Owned storage is a set of parallel arrays over
/// slot indices.
pub struct Registry {
    alive: Vec<bool>,
    generation: Vec<u64>,
    position: Vec<Position>,
    collision_box: Vec<Option<CollisionBox>>,
    health: Vec<Option<Health>>,
    projectile: Vec<Option<Projectile>>,
    shooter: Vec<Option<Shooter>>,
    player: Vec<Option<Player>>,
    enemy: Vec<Option<Enemy>>,
}

impl View for Registry {
    type V = Seq<SlotModel>;

    closed spec fn view(&self) -> Seq<SlotModel> {
        Seq::new(
            self.alive@.len(),
            |i: int| SlotModel {
                alive: self.alive@[i],
                generation: self.generation@[i],
                position: self.position@[i],
                collision_box: self.collision_box@[i],
                health: self.health@[i],
                projectile: match self.projectile@[i] {
                    Some(p) => Some(p@),
                    None => None,
                },
                shooter: self.shooter@[i],
                player: self.player@[i],
                enemy: self.enemy@[i],
            },
        )
    }
}

impl Registry {
    /// All parallel component arrays cover the same slots.
    pub closed spec fn lengths_ok(&self) -> bool {
        &&& self.generation@.len() == self.alive@.len()
        &&& self.position@.len() == self.alive@.len()
        &&& self.collision_box@.len() == self.alive@.len()
        &&& self.health@.len() == self.alive@.len()
        &&& self.projectile@.len() == self.alive@.len()
        &&& self.shooter@.len() == self.alive@.len()
        &&& self.player@.len() == self.alive@.len()
        &&& self.enemy@.len() == self.alive@.len()
    }

    /// Registry well-formedness: consistent storage and a well-formed
    /// model.
    pub open spec fn wf(&self) -> bool {
        self.lengths_ok() && wf_model(self@)
    }

    /// An empty registry.
    pub fn new() -> (r: Registry)
        ensures
            r.wf(),
            r@ == Seq::<SlotModel>::empty(),
    {
        let r = Registry {
            alive: Vec::new(),
            generation: Vec::new(),
            position: Vec::new(),
            collision_box: Vec::new(),
            health: Vec::new(),
            projectile: Vec::new(),
            shooter: Vec::new(),
            player: Vec::new(),
            enemy: Vec::new(),
        };
        proof {
            assert(r@ =~= Seq::<SlotModel>::empty());
        }
        r
    }

    /// Number of slots, live or dead.
    pub fn len(&self) -> (r: usize)
        ensures
            r == self@.len(),
    {
        self.alive.len()
    }

    /// Whether slot `i` holds a live entity.
    pub fn is_live(&self, i: usize) -> (r: bool)
        requires
            i < self@.len(),
        ensures
            r == live(self@, i as int),
    {
        self.alive[i]
    }

    /// The handle of the entity in slot `i`.
    pub fn entity_at(&self, i: usize) -> (r: EntityId)
        requires
            self.wf(),
            i < self@.len(),
        ensures
            r == id_at(self@, i as int),
    {
        EntityId { index: i, generation: self.generation[i] }
    }

    /// Whether `id` is a handle to a live entity.
    pub fn is_valid(&self, id: EntityId) -> (r: bool)
        requires
            self.wf(),
        ensures
            r == valid_id(self@, id),
    {
        id.index < self.alive.len() && self.alive[id.index]
            && self.generation[id.index] == id.generation
    }

    /// The position of the entity in slot `i`.
    pub fn position_at(&self, i: usize) -> (r: Position)
        requires
            self.wf(),
            i < self@.len(),
        ensures
            r == self@[i as int].position,
    {
        self.position[i]
    }

    /// The bounding extent of the entity in slot `i`, if it has one.
    pub fn box_at(&self, i: usize) -> (r: Option<CollisionBox>)
        requires
            self.wf(),
            i < self@.len(),
        ensures
            r == self@[i as int].collision_box,
    {
        self.collision_box[i]
    }

    /// The health component of the entity in slot `i`, if it has one.
    pub fn health_at(&self, i: usize) -> (r: Option<Health>)
        requires
            self.wf(),
            i < self@.len(),
        ensures
            r == self@[i as int].health,
    {
        self.health[i]
    }

    /// The shooter component of the entity in slot `i`, if it has one.
    pub fn shooter_at(&self, i: usize) -> (r: Option<Shooter>)
        requires
            self.wf(),
            i < self@.len(),
        ensures
            r == self@[i as int].shooter,
    {
        self.shooter[i]
    }

    /// The score-holder component of the entity in slot `i`, if it has
    /// one.
    pub fn player_at(&self, i: usize) -> (r: Option<Player>)
        requires
            self.wf(),
            i < self@.len(),
        ensures
            r == self@[i as int].player,
    {
        self.player[i]
    }

    /// The enemy component of the entity in slot `i`, if it has one.
    pub fn enemy_at(&self, i: usize) -> (r: Option<Enemy>)
        requires
            self.wf(),
            i < self@.len(),
        ensures
            r == self@[i as int].enemy,
    {
        self.enemy[i]
    }

    /// Whether the entity in slot `i` carries a damage source.
    pub fn is_projectile(&self, i: usize) -> (r: bool)
        requires
            self.wf(),
            i < self@.len(),
        ensures
            r == (self@[i as int].projectile is Some),
    {
        match &self.projectile[i] {
            Some(_) => true,
            None => false,
        }
    }

    /// The damage dealt by the damage source in slot `i`.
    pub fn projectile_damage(&self, i: usize) -> (r: i64)
        requires
            self.wf(),
            i < self@.len(),
            self@[i as int].projectile is Some,
        ensures
            Some(r) == (match self@[i as int].projectile {
                Some(p) => Some(p.damage),
                None => None,
            }),
    {
        match &self.projectile[i] {
            Some(p) => p.damage,
            None => 0,
        }
    }

    /// The origin of the damage source in slot `i`: the entity that fired
    /// it, if recorded.
    pub fn projectile_origin(&self, i: usize) -> (r: Option<EntityId>)
        requires
            self.wf(),
            i < self@.len(),
            self@[i as int].projectile is Some,
        ensures
            Some(r) == (match self@[i as int].projectile {
                Some(p) => Some(p.origin),
                None => None,
            }),
    {
        match &self.projectile[i] {
            Some(p) => p.origin,
            None => None,
        }
    }

    /// The movement direction of the damage source in slot `i`.
    pub fn projectile_direction(&self, i: usize) -> (r: crate::common::Direction)
        requires
            self.wf(),
            i < self@.len(),
            self@[i as int].projectile is Some,
        ensures
            Some(r) == (match self@[i as int].projectile {
                Some(p) => Some(p.direction),
                None => None,
            }),
    {
        match &self.projectile[i] {
            Some(p) => p.direction,
            None => crate::common::Direction::Down,
        }
    }

    /// Whether `id` is on the whitelist of the damage source in slot `i`.
    pub fn whitelist_has(&self, i: usize, id: EntityId) -> (r: bool)
        requires
            self.wf(),
            i < self@.len(),
            self@[i as int].projectile is Some,
        ensures
            Some(r) == (match self@[i as int].projectile {
                Some(p) => Some(p.whitelist.contains(id)),
                None => None,
            }),
    {
        match &self.projectile[i] {
            Some(p) => {
                proof {
                    assert(self@[i as int].projectile == Some(p@));
                }
                let mut k: usize = 0;
                while k < p.whitelist.len()
                    invariant
                        k <= p.whitelist@.len(),
                        forall|j: int| 0 <= j < k ==> p.whitelist@[j] != id,
                        self@[i as int].projectile == Some(p@),
                    decreases p.whitelist@.len() - k,
                {
                    if p.whitelist[k] == id {
                        proof {
                            assert(p.whitelist@[k as int] == id);
                            assert(p.whitelist@.contains(id));
                        }
                        return true;
                    }
                    k += 1;
                }
                proof {
                    assert(!p.whitelist@.contains(id));
                }
                false
            },
            None => false,
        }
    }

    /// The health value of the entity `id`, if `id` is live and carries
    /// health; lookup failures are reported as `None`, never an error.
    pub fn health_of(&self, id: EntityId) -> (r: Option<i64>)
        requires
            self.wf(),
        ensures
            r == health_lookup(self@, id),
    {
        if self.is_valid(id) {
            match self.health[id.index] {
                Some(h) => Some(h.health),
                None => None,
            }
        } else {
            None
        }
    }

    /// The score of the entity `id`, if `id` is live and holds a score;
    /// lookup failures are reported as `None`, never an error.
    pub fn score_of(&self, id: EntityId) -> (r: Option<i64>)
        requires
            self.wf(),
        ensures
            r == score_lookup(self@, id),
    {
        if self.is_valid(id) {
            match self.player[id.index] {
                Some(p) => Some(p.score),
                None => None,
            }
        } else {
            None
        }
    }

    /// Move the entity in slot `i` to `p`.
    pub fn set_position(&mut self, i: usize, p: Position)
        requires
            self.wf(),
            i < self@.len(),
            position_ok(p),
        ensures
            final(self).wf(),
            final(self)@ == old(self)@.update(i as int, SlotModel { position: p, ..old(self)@[i as int] }),
    {
        self.position[i] = p;
        proof {
            assert(self@ =~~= old(self)@.update(
                i as int,
                SlotModel { position: p, ..old(self)@[i as int] },
            ));
        }
    }

    /// Replace the enemy component of slot `i`.
    pub fn set_enemy(&mut self, i: usize, e: Enemy)
        requires
            self.wf(),
            i < self@.len(),
            enemy_ok(e),
        ensures
            final(self).wf(),
            final(self)@ == old(self)@.update(i as int, SlotModel { enemy: Some(e), ..old(self)@[i as int] }),
    {
        self.enemy[i] = Some(e);
        proof {
            assert(self@ =~~= old(self)@.update(
                i as int,
                SlotModel { enemy: Some(e), ..old(self)@[i as int] },
            ));
        }
    }

    /// Deal `d` damage to the health of slot `i`; exact subtraction,
    /// saturating only at the machine's lowest integer.  A slot without
    /// health is left unchanged.
    pub fn damage_health(&mut self, i: usize, d: i64)
        requires
            self.wf(),
            i < self@.len(),
            0 <= d,
        ensures
            final(self).wf(),
            final(self)@ == apply_damage(old(self)@, i as int, d),
    {
        match self.health[i] {
            Some(h) => {
                let nh: i64 = if h.health >= i64::MIN + d {
                    h.health - d
                } else {
                    i64::MIN
                };
                self.health[i] = Some(Health { health: nh });
                proof {
                    assert(self@ =~~= apply_damage(old(self)@, i as int, d));
                }
            },
            None => {
                proof {
                    assert(self@ =~~= apply_damage(old(self)@, i as int, d));
                }
            },
        }
    }

    /// Despawn the entity in slot `i`: the slot goes dead and its handle
    /// stops validating.
    pub fn kill_at(&mut self, i: usize)
        requires
            self.wf(),
            i < self@.len(),
        ensures
            final(self).wf(),
            final(self)@ == kill_model(old(self)@, i as int),
    {
        self.alive[i] = false;
        proof {
            assert(self@ =~~= kill_model(old(self)@, i as int));
        }
    }

    /// Credit one score award to the score holder in slot `i`; exact
    /// addition, saturating only at the machine's highest integer.  A
    /// slot without a score holder is left unchanged.
    pub fn award_score_at(&mut self, i: usize)
        requires
            self.wf(),
            i < self@.len(),
        ensures
            final(self).wf(),
            final(self)@ == award_score(old(self)@, i as int),
    {
        match self.player[i] {
            Some(p) => {
                let ns: i64 = if p.score <= i64::MAX - SCORE_AWARD {
                    p.score + SCORE_AWARD
                } else {
                    i64::MAX
                };
                self.player[i] = Some(Player { score: ns });
                proof {
                    assert(self@ =~~= award_score(old(self)@, i as int));
                }
            },
            None => {
                proof {
                    assert(self@ =~~= award_score(old(self)@, i as int));
                }
            },
        }
    }

    /// Create a live entity from the given components, reusing the first
    /// dead slot (bumping its generation) or appending a fresh slot.
    /// Every previously live entity keeps its handle and its slot.
    pub fn spawn(
        &mut self,
        position: Position,
        collision_box: Option<CollisionBox>,
        health: Option<Health>,
        projectile: Option<Projectile>,
        shooter: Option<Shooter>,
        player: Option<Player>,
        enemy: Option<Enemy>,
    ) -> (r: EntityId)
        requires
            self.wf(),
            position_ok(position),
            collision_box matches Some(b) ==> collision_box_ok(b),
            projectile matches Some(p) ==> projectile_ok(p@),
            shooter matches Some(t) ==> shooter_ok(t),
            enemy matches Some(e) ==> enemy_ok(e),
        ensures
            final(self).wf(),
            final(self)@ == spawn_model(
                old(self)@,
                position,
                collision_box,
                health,
                opt_proj_view(projectile),
                shooter,
                player,
                enemy,
            ),
            r == spawned_id(old(self)@),
            r.index as int == spawn_index(old(self)@),
            valid_id(final(self)@, r),
            final(self)@[r.index as int] == spawn_slot_model(
                old(self)@,
                position,
                collision_box,
                health,
                opt_proj_view(projectile),
                shooter,
                player,
                enemy,
            ),
            forall|id: EntityId|
                valid_id(old(self)@, id) ==> valid_id(final(self)@, id)
                    && final(self)@[id.index as int] == old(self)@[id.index as int],
            forall|j: int|
                0 <= j < old(self)@.len() && j != spawn_index(old(self)@)
                    ==> final(self)@[j] == old(self)@[j],
            final(self)@.len() == (if spawn_index(old(self)@) == old(self)@.len() {
                old(self)@.len() + 1
            } else {
                old(self)@.len()
            }),
            spawn_index(old(self)@) < final(self)@.len(),
            !old(self)@[r.index as int].alive || spawn_index(old(self)@) == old(self)@.len(),
    {
        let n: usize = self.alive.len();
        let mut idx: usize = 0;
        while idx < n && (self.alive[idx] || self.generation[idx] == u64::MAX)
            invariant
                self.wf(),
                n == self@.len(),
                idx <= n,
                forall|j: int| 0 <= j < idx ==> !spawn_candidate(self@, j),
            decreases n - idx,
        {
            idx += 1;
        }
        proof {
            lemma_spawn_index_skip(self@, idx as int);
        }
        if idx < n {
            assert(spawn_candidate(self@, idx as int));
            assert(spawn_index(self@) == idx as int);
            let g: u64 = self.generation[idx] + 1;
            self.alive[idx] = true;
            self.generation[idx] = g;
            self.position[idx] = position;
            self.collision_box[idx] = collision_box;
            self.health[idx] = health;
            self.projectile[idx] = projectile;
            self.shooter[idx] = shooter;
            self.player[idx] = player;
            self.enemy[idx] = enemy;
            proof {
                assert(self@ =~~= spawn_model(
                    old(self)@,
                    position,
                    collision_box,
                    health,
                    opt_proj_view(projectile),
                    shooter,
                    player,
                    enemy,
                ));
            }
            EntityId { index: idx, generation: g }
        } else {
            assert(spawn_index(self@) == n as int);
            self.alive.push(true);
            self.generation.push(0);
            self.position.push(position);
            self.collision_box.push(collision_box);
            self.health.push(health);
            self.projectile.push(projectile);
            self.shooter.push(shooter);
            self.player.push(player);
            self.enemy.push(enemy);
            proof {
                assert(self@ =~~= spawn_model(
                    old(self)@,
                    position,
                    collision_box,
                    health,
                    opt_proj_view(projectile),
                    shooter,
                    player,
                    enemy,
                ));
            }
            EntityId { index: n, generation: 0 }
        }
    }
}

} // verus!
