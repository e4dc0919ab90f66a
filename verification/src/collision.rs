use vstd::prelude::*;

use crate::config::{DAMAGE_LIMIT, SWEEP_CAP};
use crate::entity::{is_projectile_kind, kind_is_projectile, Entity, EntityKind};
use crate::motion::mag;
use crate::registry::{all_valid, Registry};

verus! {

/// One direction of the kind-compatibility table: the pairs the policy
/// lists with `a` first. `kinds_collide` closes it under symmetry.
pub open spec fn kinds_collide_ordered(a: EntityKind, b: EntityKind) -> bool {
    ||| (a == EntityKind::Player && (b == EntityKind::Enemy || b == EntityKind::EnemyProjectile
        || b == EntityKind::Object || b == EntityKind::Effect))
    ||| (a == EntityKind::PlayerProjectile && (b == EntityKind::Enemy || b
        == EntityKind::Object))
}

/// The kind-compatibility policy: the player collides with enemies, enemy
/// projectiles, objects and effects; player projectiles collide with enemies
/// and objects; every other pair — friendly fire, effect-projectile contact
/// and all unlisted pairs — never collides.
pub open spec fn kinds_collide(a: EntityKind, b: EntityKind) -> bool {
    kinds_collide_ordered(a, b) || kinds_collide_ordered(b, a)
}

/// The policy never depends on which entity is listed first.
pub proof fn lemma_kinds_collide_symmetric(a: EntityKind, b: EntityKind)
    ensures
        kinds_collide(a, b) == kinds_collide(b, a),
{
}

/// Executable twin of `kinds_collide`.
pub fn kind_pair_collides(a: EntityKind, b: EntityKind) -> (r: bool)
    ensures
        r == kinds_collide(a, b),
{
    let ab = match a {
        EntityKind::Player => match b {
            EntityKind::Enemy => true,
            EntityKind::EnemyProjectile => true,
            EntityKind::Object => true,
            EntityKind::Effect => true,
            _ => false,
        },
        EntityKind::PlayerProjectile => match b {
            EntityKind::Enemy => true,
            EntityKind::Object => true,
            _ => false,
        },
        _ => false,
    };
    let ba = match b {
        EntityKind::Player => match a {
            EntityKind::Enemy => true,
            EntityKind::EnemyProjectile => true,
            EntityKind::Object => true,
            EntityKind::Effect => true,
            _ => false,
        },
        EntityKind::PlayerProjectile => match a {
            EntityKind::Enemy => true,
            EntityKind::Object => true,
            _ => false,
        },
        _ => false,
    };
    ab || ba
}

/// Geometric overlap test: axis-aligned square boxes of half-extent
/// `radius`, centered on the entity positions, touching counts as overlap.
pub open spec fn boxes_overlap(a: Entity, b: Entity) -> bool {
    &&& mag(a.x - b.x) <= a.radius + b.radius
    &&& mag(a.y - b.y) <= a.radius + b.radius
}

/// The full collision predicate for one unordered pair: both tangible, kinds
/// compatible, boxes overlapping. Symmetric in its arguments.
pub open spec fn pair_collides(a: Entity, b: Entity) -> bool {
    &&& a.is_tangible
    &&& b.is_tangible
    &&& kinds_collide(a.kind, b.kind)
    &&& boxes_overlap(a, b)
}

/// The full pair predicate never depends on which entity is listed first.
pub proof fn lemma_pair_collides_symmetric(a: Entity, b: Entity)
    ensures
        pair_collides(a, b) == pair_collides(b, a),
{
}

/// Executable twin of `pair_collides`.
pub fn entities_collide(a: &Entity, b: &Entity) -> (r: bool)
    requires
        a.valid(),
        b.valid(),
    ensures
        r == pair_collides(*a, *b),
{
    if !a.is_tangible || !b.is_tangible {
        return false;
    }
    if !kind_pair_collides(a.kind, b.kind) {
        return false;
    }
    let dx: i32 = if a.x >= b.x {
        a.x - b.x
    } else {
        b.x - a.x
    };
    let dy: i32 = if a.y >= b.y {
        a.y - b.y
    } else {
        b.y - a.y
    };
    dx <= a.radius + b.radius && dy <= a.radius + b.radius
}

/// Damage `a` receives from the colliding pair (a, b): non-projectiles take
/// the other side's contact damage, projectiles are exempt.
pub open spec fn recv_from(a: Entity, b: Entity) -> int {
    if pair_collides(a, b) && !is_projectile_kind(a.kind) {
        b.collision_damage as int
    } else {
        0
    }
}

/// Punch-through spent by `a` on the colliding pair (a, b): one per hit, for
/// projectiles only.
pub open spec fn hit_from(a: Entity, b: Entity) -> int {
    if pair_collides(a, b) && is_projectile_kind(a.kind) {
        1
    } else {
        0
    }
}

/// Damage entity `k` receives from partners at indices below `m`.
pub open spec fn recv_upto(s: Seq<Entity>, k: int, m: int) -> int
    decreases m,
{
    if m <= 0 {
        0
    } else {
        recv_upto(s, k, m - 1) + (if m - 1 == k {
            0
        } else {
            recv_from(s[k], s[m - 1])
        })
    }
}

/// Punch-through entity `k` spends on partners at indices below `m`.
pub open spec fn hits_upto(s: Seq<Entity>, k: int, m: int) -> int
    decreases m,
{
    if m <= 0 {
        0
    } else {
        hits_upto(s, k, m - 1) + (if m - 1 == k {
            0
        } else {
            hit_from(s[k], s[m - 1])
        })
    }
}

proof fn lemma_sums_bounds(s: Seq<Entity>, k: int, m: int)
    requires
        all_valid(s),
        0 <= k < s.len(),
        0 <= m <= s.len(),
    ensures
        0 <= recv_upto(s, k, m) <= m * DAMAGE_LIMIT,
        0 <= hits_upto(s, k, m) <= m,
        is_projectile_kind(s[k].kind) ==> recv_upto(s, k, m) == 0,
        !is_projectile_kind(s[k].kind) ==> hits_upto(s, k, m) == 0,
    decreases m,
{
    if m > 0 {
        lemma_sums_bounds(s, k, m - 1);
        if m - 1 != k {
            assert(s[m - 1].valid());
        }
    }
}

/// Entity `k` after the sweep charged it with all its pairwise damage and
/// punch-through spending.
pub open spec fn after_hits(s: Seq<Entity>, k: int) -> Entity {
    Entity {
        health: (s[k].health - recv_upto(s, k, s.len() as int)) as i32,
        punch_through: (s[k].punch_through - hits_upto(s, k, s.len() as int)) as i32,
        ..s[k]
    }
}

/// The whole population after damage is applied, before removal.
pub open spec fn damaged_all(s: Seq<Entity>) -> Seq<Entity> {
    Seq::new(s.len(), |k: int| after_hits(s, k))
}

/// Who stays after the sweep: projectiles by remaining punch-through,
/// everything else by remaining health.
pub open spec fn survives(e: Entity) -> bool {
    if is_projectile_kind(e.kind) {
        e.punch_through > 0
    } else {
        e.health > 0
    }
}

/// The surviving entities, in order.
pub open spec fn survivors_spec(s: Seq<Entity>) -> Seq<Entity>
    decreases s.len(),
{
    if s.len() == 0 {
        Seq::empty()
    } else {
        let rest = survivors_spec(s.drop_last());
        if survives(s.last()) {
            rest.push(s.last())
        } else {
            rest
        }
    }
}

proof fn lemma_survivors_push(s: Seq<Entity>, x: Entity)
    ensures
        survivors_spec(s.push(x)) == (if survives(x) {
            survivors_spec(s).push(x)
        } else {
            survivors_spec(s)
        }),
{
    assert(s.push(x).drop_last() =~= s);
    assert(s.push(x).last() == x);
}

/// One full collision sweep: every unordered pair of live entities is tested
/// exactly once; colliding non-projectiles take the partner's contact
/// damage, colliding projectiles spend punch-through; then everything with
/// spent health or punch-through is removed.
pub open spec fn sweep_spec(s: Seq<Entity>) -> Seq<Entity> {
    survivors_spec(damaged_all(s))
}

/// Pairwise collision sweep over the registry. Quadratic: every unordered
/// pair is visited exactly once.
pub fn collision_sweep(r: &mut Registry)
    requires
        old(r).wf(),
        old(r).entities@.len() <= SWEEP_CAP,
    ensures
        final(r).wf(),
        final(r).entities@ == sweep_spec(old(r).entities@),
        final(r).entities@.len() <= old(r).entities@.len(),
        forall|k: int|
            0 <= k < final(r).entities@.len() ==> exists|i: int|
                0 <= i < old(r).entities@.len() && #[trigger] final(r).entities@[k] == after_hits(
                    old(r).entities@,
                    i,
                ),
{
    let s = Ghost(r.entities@);
    let n = r.entities.len();

    let mut dmg: Vec<i32> = Vec::new();
    let mut hits: Vec<i32> = Vec::new();
    let mut z: usize = 0;
    while z < n
        invariant
            z <= n,
            dmg@.len() == z,
            hits@.len() == z,
            forall|k: int| 0 <= k < z ==> dmg@[k] == 0,
            forall|k: int| 0 <= k < z ==> hits@[k] == 0,
        decreases n - z,
    {
        dmg.push(0);
        hits.push(0);
        z = z + 1;
    }

    let mut i: usize = 0;
    while i < n
        invariant
            i <= n,
            n == s@.len(),
            n <= SWEEP_CAP,
            r.entities@ == s@,
            s@ == old(r).entities@,
            old(r).wf(),
            dmg@.len() == n,
            hits@.len() == n,
            forall|k: int|
                0 <= k < i ==> #[trigger] dmg@[k] == recv_upto(s@, k, n as int),
            forall|k: int|
                0 <= k < i ==> #[trigger] hits@[k] == hits_upto(s@, k, n as int),
            forall|k: int|
                i <= k < n ==> #[trigger] dmg@[k] == recv_upto(s@, k, i as int),
            forall|k: int|
                i <= k < n ==> #[trigger] hits@[k] == hits_upto(s@, k, i as int),
        decreases n - i,
    {
        let mut j: usize = i + 1;
        proof {
            assert(recv_upto(s@, i as int, i + 1) == recv_upto(s@, i as int, i as int));
            assert(hits_upto(s@, i as int, i + 1) == hits_upto(s@, i as int, i as int));
        }
        while j < n
            invariant
                i < j <= n,
                i < n,
                n == s@.len(),
                n <= SWEEP_CAP,
                r.entities@ == s@,
                s@ == old(r).entities@,
                old(r).wf(),
                dmg@.len() == n,
                hits@.len() == n,
                forall|k: int|
                    0 <= k < i ==> #[trigger] dmg@[k] == recv_upto(s@, k, n as int),
                forall|k: int|
                    0 <= k < i ==> #[trigger] hits@[k] == hits_upto(s@, k, n as int),
                dmg@[i as int] == recv_upto(s@, i as int, j as int),
                hits@[i as int] == hits_upto(s@, i as int, j as int),
                forall|k: int|
                    i < k < j ==> #[trigger] dmg@[k] == recv_upto(s@, k, i + 1),
                forall|k: int|
                    i < k < j ==> #[trigger] hits@[k] == hits_upto(s@, k, i + 1),
                forall|k: int|
                    j <= k < n ==> #[trigger] dmg@[k] == recv_upto(s@, k, i as int),
                forall|k: int|
                    j <= k < n ==> #[trigger] hits@[k] == hits_upto(s@, k, i as int),
            decreases n - j,
        {
            let a = r.entities[i];
            let b = r.entities[j];
            assert(a.valid() && b.valid());
            proof {
                lemma_sums_bounds(s@, i as int, j as int);
                lemma_sums_bounds(s@, j as int, i as int);
                lemma_pair_collides_symmetric(a, b);
            }
            if entities_collide(&a, &b) {
                if kind_is_projectile(a.kind) {
                    let cur = hits[i];
                    hits.set(i, cur + 1);
                } else {
                    let cur = dmg[i];
                    dmg.set(i, cur + b.collision_damage);
                }
                if kind_is_projectile(b.kind) {
                    let cur = hits[j];
                    hits.set(j, cur + 1);
                } else {
                    let cur = dmg[j];
                    dmg.set(j, cur + a.collision_damage);
                }
            }
            proof {
                assert(recv_upto(s@, i as int, j + 1) == recv_upto(s@, i as int, j as int)
                    + recv_from(s@[i as int], s@[j as int]));
                assert(hits_upto(s@, i as int, j + 1) == hits_upto(s@, i as int, j as int)
                    + hit_from(s@[i as int], s@[j as int]));
                assert(recv_upto(s@, j as int, i + 1) == recv_upto(s@, j as int, i as int)
                    + recv_from(s@[j as int], s@[i as int]));
                assert(hits_upto(s@, j as int, i + 1) == hits_upto(s@, j as int, i as int)
                    + hit_from(s@[j as int], s@[i as int]));
            }
            j = j + 1;
        }
        i = i + 1;
    }

    let ghost da = damaged_all(s@);
    let mut out: Vec<Entity> = Vec::new();
    let mut k: usize = 0;
    while k < n
        invariant
            k <= n,
            n == s@.len(),
            n <= SWEEP_CAP,
            r.entities@ == s@,
            s@ == old(r).entities@,
            old(r).wf(),
            dmg@.len() == n,
            hits@.len() == n,
            da == damaged_all(s@),
            forall|t: int| 0 <= t < n ==> #[trigger] dmg@[t] == recv_upto(s@, t, n as int),
            forall|t: int| 0 <= t < n ==> #[trigger] hits@[t] == hits_upto(s@, t, n as int),
            out@ == survivors_spec(da.take(k as int)),
            out@.len() <= k,
            forall|a: int, b: int| 0 <= a < b < out@.len() ==> out@[a].id != out@[b].id,
            forall|t: int| 0 <= t < out@.len() ==> #[trigger] out@[t].valid(),
            forall|t: int|
                0 <= t < out@.len() ==> exists|i2: int|
                    0 <= i2 < k && #[trigger] out@[t] == after_hits(s@, i2),
        decreases n - k,
    {
        let e = r.entities[k];
        assert(e.valid());
        proof {
            lemma_sums_bounds(s@, k as int, n as int);
        }
        let d = dmg[k];
        let h = hits[k];
        let ne = Entity { health: e.health - d, punch_through: e.punch_through - h, ..e };
        assert(ne == da[k as int]);
        proof {
            lemma_survivors_push(da.take(k as int), da[k as int]);
            assert(da.take(k + 1) =~= da.take(k as int).push(da[k as int]));
        }
        let keep = if kind_is_projectile(ne.kind) {
            ne.punch_through > 0
        } else {
            ne.health > 0
        };
        if keep {
            proof {
                assert forall|a: int| 0 <= a < out@.len() implies out@[a].id != ne.id by {
                    let i2 = choose|i2: int| 0 <= i2 < k && #[trigger] out@[a] == after_hits(
                        s@,
                        i2,
                    );
                    assert(s@[i2].id != s@[k as int].id);
                }
                assert(ne.valid());
            }
            out.push(ne);
            proof {
                assert forall|t: int| 0 <= t < out@.len() implies exists|i2: int|
                    0 <= i2 < k + 1 && #[trigger] out@[t] == after_hits(s@, i2) by {
                    if t == out@.len() - 1 {
                        assert(out@[t] == after_hits(s@, k as int));
                    } else {
                        let i2 = choose|i2: int| 0 <= i2 < k && #[trigger] out@[t] == after_hits(
                            s@,
                            i2,
                        );
                        assert(out@[t] == after_hits(s@, i2));
                    }
                }
            }
        }
        k = k + 1;
    }
    proof {
        assert(da.take(n as int) =~= da);
        assert(out@ == sweep_spec(s@));
    }
    r.entities = out;
}

} // verus!
