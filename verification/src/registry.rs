use vstd::prelude::*;

use crate::config::{
    CONTACT_DAMAGE, HEALTH_LIMIT, POS_LIMIT, PUNCH_LIMIT, RADIUS_LIMIT, SPEED_LIMIT,
};
use crate::entity::{Entity, EntityKind, MovePattern, WeaponKind};
use crate::ids::{
    distinct_ids, has_id, is_smallest_free_id, lemma_smallest_free_id_unique, next_id, next_id_of,
};

verus! {

/// Every live entity is well formed.
pub open spec fn all_valid(s: Seq<Entity>) -> bool {
    forall|i: int| 0 <= i < s.len() ==> #[trigger] s[i].valid()
}

/// The record `create_entity` appends: `id` from the allocator, contact
/// damage fixed at `CONTACT_DAMAGE`, tangible by default.
pub open spec fn new_entity(
    id: u32,
    kind: EntityKind,
    weapon: WeaponKind,
    pattern: MovePattern,
    health: i32,
    model: u32,
    x: i32,
    y: i32,
    vx: i32,
    vy: i32,
    top_speed: i32,
    punch_through: i32,
    radius: i32,
) -> Entity {
    Entity {
        id,
        kind,
        weapon,
        pattern,
        model,
        x,
        y,
        vx,
        vy,
        top_speed,
        health,
        collision_damage: CONTACT_DAMAGE,
        is_tangible: true,
        punch_through,
        radius,
    }
}

/// Law: in a well-formed registry all live ids are pairwise distinct, and
/// the id `create_entity` assigns next — `next_id_of` the live population,
/// by its contract — is absent from the live-id set while every smaller id
/// is present (see `is_smallest_free_id`); so `{0, 1, 3}` live yields 2.
pub proof fn lemma_id_allocation(r: Registry, id: u32)
    requires
        r.wf(),
        is_smallest_free_id(r.entities@, id),
    ensures
        forall|i: int, j: int|
            0 <= i < j < r.entities@.len() ==> r.entities@[i].id != r.entities@[j].id,
        !has_id(r.entities@, id),
        forall|m: u32| m < id ==> has_id(r.entities@, m),
        id == next_id_of(r.entities@),
{
    lemma_smallest_free_id_unique(r.entities@, id, next_id_of(r.entities@));
}

/// Owner of the live entity collection: creation, removal, read access.
/// Entities stay in insertion order; id allocation is isolated behind
/// `crate::ids::next_id` so its strategy can change without touching this
/// contract.
pub struct Registry {
    /// The live entities, in insertion order.
    pub entities: Vec<Entity>,
}

impl Registry {
    /// Invariant: ids are pairwise distinct and every entity is well formed.
    pub open spec fn wf(self) -> bool {
        &&& distinct_ids(self.entities@)
        &&& all_valid(self.entities@)
    }

    /// An empty registry.
    pub fn new() -> (r: Registry)
        ensures
            r.wf(),
            r.entities@ == Seq::<Entity>::empty(),
    {
        Registry { entities: Vec::new() }
    }

    /// Number of live entities.
    pub fn count(&self) -> (n: usize)
        ensures
            n == self.entities@.len(),
    {
        self.entities.len()
    }

    /// Read access for movement, collision and render handoff.
    pub fn iterate(&self) -> (r: &Vec<Entity>)
        ensures
            r@ == self.entities@,
    {
        &self.entities
    }

    /// Whether some live entity carries `id`.
    pub fn contains_id(&self, id: u32) -> (r: bool)
        ensures
            r == has_id(self.entities@, id),
    {
        let n = self.entities.len();
        let mut i: usize = 0;
        while i < n
            invariant
                i <= n,
                n == self.entities@.len(),
                forall|k: int| 0 <= k < i ==> self.entities@[k].id != id,
            decreases n - i,
        {
            if self.entities[i].id == id {
                return true;
            }
            i = i + 1;
        }
        false
    }

    /// Allocate the smallest free id, append a new entity carrying it, and
    /// return the id. Always succeeds; no capacity limit beyond the machine's.
    #[allow(clippy::too_many_arguments)]
    pub fn create_entity(
        &mut self,
        kind: EntityKind,
        weapon: WeaponKind,
        pattern: MovePattern,
        health: i32,
        model: u32,
        x: i32,
        y: i32,
        vx: i32,
        vy: i32,
        top_speed: i32,
        punch_through: i32,
        radius: i32,
    ) -> (id: u32)
        requires
            old(self).wf(),
            old(self).entities@.len() < u32::MAX as usize,
            -POS_LIMIT <= x <= POS_LIMIT,
            -POS_LIMIT <= y <= POS_LIMIT,
            -SPEED_LIMIT <= vx <= SPEED_LIMIT,
            -SPEED_LIMIT <= vy <= SPEED_LIMIT,
            0 <= top_speed <= SPEED_LIMIT,
            -HEALTH_LIMIT <= health <= HEALTH_LIMIT,
            0 <= punch_through <= PUNCH_LIMIT,
            0 <= radius <= RADIUS_LIMIT,
        ensures
            final(self).wf(),
            id == next_id_of(old(self).entities@),
            is_smallest_free_id(old(self).entities@, id),
            final(self).entities@ == old(self).entities@.push(
                new_entity(
                    id,
                    kind,
                    weapon,
                    pattern,
                    health,
                    model,
                    x,
                    y,
                    vx,
                    vy,
                    top_speed,
                    punch_through,
                    radius,
                ),
            ),
    {
        let id = next_id(&self.entities);
        let e = Entity {
            id,
            kind,
            weapon,
            pattern,
            model,
            x,
            y,
            vx,
            vy,
            top_speed,
            health,
            collision_damage: CONTACT_DAMAGE,
            is_tangible: true,
            punch_through,
            radius,
        };
        self.entities.push(e);
        proof {
            let s = old(self).entities@;
            assert forall|i: int, j: int|
                0 <= i < j < self.entities@.len() implies self.entities@[i].id
                != self.entities@[j].id by {
                if j == s.len() {
                    assert(!has_id(s, id));
                    assert(s[i].id != id);
                }
            }
        }
        id
    }

    /// Remove the entity carrying `id`; a silent no-op when none does.
    pub fn despawn(&mut self, id: u32)
        requires
            old(self).wf(),
        ensures
            final(self).wf(),
            !has_id(old(self).entities@, id) ==> *final(self) == *old(self),
            has_id(old(self).entities@, id) ==> exists|i: int|
                0 <= i < old(self).entities@.len() && old(self).entities@[i].id == id
                    && final(self).entities@ == old(self).entities@.remove(i),
    {
        let n = self.entities.len();
        let mut i: usize = 0;
        while i < n
            invariant
                i <= n,
                n == self.entities@.len(),
                *self == *old(self),
                old(self).wf(),
                forall|k: int| 0 <= k < i ==> self.entities@[k].id != id,
            decreases n - i,
        {
            if self.entities[i].id == id {
                self.entities.remove(i);
                proof {
                    let s = old(self).entities@;
                    let t = self.entities@;
                    assert(t == s.remove(i as int));
                    s.remove_ensures(i as int);
                    assert forall|a: int, b: int| 0 <= a < b < t.len() implies t[a].id
                        != t[b].id by {
                        let a0: int = if a < i { a } else { a + 1 };
                        let b0: int = if b < i { b } else { b + 1 };
                        assert(t[a] == s[a0]);
                        assert(t[b] == s[b0]);
                        assert(s[a0].id != s[b0].id);
                    }
                    assert forall|k: int| 0 <= k < t.len() implies #[trigger] t[k].valid() by {
                        let k0: int = if k < i { k } else { k + 1 };
                        assert(t[k] == s[k0]);
                        assert(s[k0].valid());
                    }
                }
                return ;
            }
            i = i + 1;
        }
    }
}

} // verus!
