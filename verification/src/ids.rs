use vstd::prelude::*;

use crate::entity::Entity;

verus! {

/// Some live entity carries `id`.
pub open spec fn has_id(s: Seq<Entity>, id: u32) -> bool {
    exists|i: int| 0 <= i < s.len() && s[i].id == id
}

/// No two live entities share an id.
pub open spec fn distinct_ids(s: Seq<Entity>) -> bool {
    forall|i: int, j: int| 0 <= i < j < s.len() ==> s[i].id != s[j].id
}

/// `id` is the smallest non-negative integer absent from the live-id set.
pub open spec fn is_smallest_free_id(s: Seq<Entity>, id: u32) -> bool {
    &&& !has_id(s, id)
    &&& forall|m: u32| m < id ==> has_id(s, m)
}

/// The id the allocator hands to the next creation: the smallest free one.
pub open spec fn next_id_of(s: Seq<Entity>) -> u32 {
    choose|id: u32| is_smallest_free_id(s, id)
}

/// Only one id can be the smallest free one.
pub proof fn lemma_smallest_free_id_unique(s: Seq<Entity>, a: u32, b: u32)
    requires
        is_smallest_free_id(s, a),
        is_smallest_free_id(s, b),
    ensures
        a == b,
{
    if a < b {
        assert(has_id(s, a));
    }
    if b < a {
        assert(has_id(s, b));
    }
}

/// Number of `true` entries.
pub closed spec fn count_true(s: Seq<bool>) -> int
    decreases s.len(),
{
    if s.len() == 0 {
        0
    } else {
        count_true(s.drop_last()) + if s.last() {
            1int
        } else {
            0int
        }
    }
}

proof fn lemma_count_true_push(s: Seq<bool>, b: bool)
    ensures
        count_true(s.push(b)) == count_true(s) + if b {
            1int
        } else {
            0int
        },
{
    assert(s.push(b).drop_last() =~= s);
    assert(s.push(b).last() == b);
}

proof fn lemma_count_true_set(s: Seq<bool>, i: int)
    requires
        0 <= i < s.len(),
    ensures
        count_true(s.update(i, true)) <= count_true(s) + 1,
    decreases s.len(),
{
    let t = s.update(i, true);
    if i == s.len() - 1 {
        assert(t.drop_last() =~= s.drop_last());
    } else {
        assert(t.drop_last() =~= s.drop_last().update(i, true));
        assert(t.last() == s.last());
        lemma_count_true_set(s.drop_last(), i);
    }
}

proof fn lemma_count_true_all(s: Seq<bool>)
    requires
        forall|k: int| 0 <= k < s.len() ==> s[k],
    ensures
        count_true(s) == s.len(),
    decreases s.len(),
{
    if s.len() > 0 {
        lemma_count_true_all(s.drop_last());
    }
}

/// Smallest-gap id allocation: returns the smallest non-negative integer not
/// currently used by a live entity. Isolated here so the registry's contract
/// does not depend on the allocation strategy; this one scans a presence
/// table over the candidate range `0..=len`, where the result always lies.
pub fn next_id(entities: &Vec<Entity>) -> (id: u32)
    requires
        entities@.len() < u32::MAX as usize,
    ensures
        is_smallest_free_id(entities@, id),
        id == next_id_of(entities@),
        id as int <= entities@.len(),
{
    let s = Ghost(entities@);
    let n = entities.len();

    // presence table for candidate ids 0..=n
    let mut seen: Vec<bool> = Vec::new();
    let mut i: usize = 0;
    while i < n + 1
        invariant
            n < u32::MAX as usize,
            i <= n + 1,
            seen@.len() == i,
            forall|k: int| 0 <= k < i ==> !seen@[k],
            count_true(seen@) == 0,
        decreases n + 1 - i,
    {
        proof {
            lemma_count_true_push(seen@, false);
        }
        seen.push(false);
        i = i + 1;
    }

    // mark the ids that are in use
    let mut j: usize = 0;
    while j < n
        invariant
            j <= n,
            n == s@.len(),
            n < u32::MAX as usize,
            entities@ == s@,
            seen@.len() == n + 1,
            forall|k: int|
                0 <= k <= n ==> (seen@[k] <==> exists|t: int|
                    0 <= t < j && s@[t].id == k as u32),
            count_true(seen@) <= j,
        decreases n - j,
    {
        let e_id = entities[j].id;
        if (e_id as usize) < n + 1 {
            proof {
                lemma_count_true_set(seen@, e_id as int);
            }
            seen.set(e_id as usize, true);
            proof {
                assert forall|k: int| 0 <= k <= n implies (seen@[k] <==> exists|t: int|
                    0 <= t < j + 1 && s@[t].id == k as u32) by {
                    if k == e_id as int {
                        assert(s@[j as int].id == k as u32);
                    } else {
                        assert(seen@[k] <==> exists|t: int| 0 <= t < j && s@[t].id == k as u32);
                        if exists|t: int| 0 <= t < j + 1 && s@[t].id == k as u32 {
                            let t = choose|t: int| 0 <= t < j + 1 && s@[t].id == k as u32;
                            assert(t < j);
                        }
                    }
                }
            }
        } else {
            proof {
                assert forall|k: int| 0 <= k <= n implies (seen@[k] <==> exists|t: int|
                    0 <= t < j + 1 && s@[t].id == k as u32) by {
                    if exists|t: int| 0 <= t < j + 1 && s@[t].id == k as u32 {
                        let t = choose|t: int| 0 <= t < j + 1 && s@[t].id == k as u32;
                        assert(t < j);
                    }
                }
            }
        }
        j = j + 1;
    }

    // scan for the first gap
    let mut id: usize = 0;
    while id < n + 1 && seen[id]
        invariant
            id <= n + 1,
            n == s@.len(),
            n < u32::MAX as usize,
            seen@.len() == n + 1,
            forall|k: int|
                0 <= k <= n ==> (seen@[k] <==> exists|t: int|
                    0 <= t < n && s@[t].id == k as u32),
            count_true(seen@) <= n,
            forall|k: int| 0 <= k < id ==> seen@[k],
        decreases n + 1 - id,
    {
        id = id + 1;
    }

    if id < n + 1 {
        proof {
            assert(!seen@[id as int]);
            assert(!has_id(s@, id as u32));
            assert forall|m: u32| m < id as u32 implies has_id(s@, m) by {
                assert(seen@[m as int]);
            }
            assert(is_smallest_free_id(s@, id as u32));
            assert(is_smallest_free_id(s@, next_id_of(s@)));
            lemma_smallest_free_id_unique(s@, id as u32, next_id_of(s@));
        }
        id as u32
    } else {
        proof {
            lemma_count_true_all(seen@);
            assert(false);
        }
        0
    }
}

} // verus!
