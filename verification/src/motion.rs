use vstd::prelude::*;

use crate::config::{
    ARENA_MAX_X, ARENA_MAX_Y, DESPAWN_MAX_X, DESPAWN_MAX_Y, DESPAWN_MIN_X, DESPAWN_MIN_Y,
    DRAG_DEN, DRAG_NUM, SPEED_LIMIT, THRUST,
};
use crate::entity::Entity;
use crate::registry::Registry;

verus! {

/// Magnitude of a speed or coordinate.
pub open spec fn mag(v: int) -> int {
    if v < 0 {
        -v
    } else {
        v
    }
}

/// Keyboard state sampled once per tick: four held direction keys and the
/// held fire key.
#[derive(Clone, Copy, Debug, PartialEq, Eq, Structural)]
pub struct InputState {
    /// Thrust toward negative y.
    pub up: bool,
    /// Thrust toward positive y.
    pub down: bool,
    /// Thrust toward negative x.
    pub left: bool,
    /// Thrust toward positive x.
    pub right: bool,
    /// Fire the player's weapon.
    pub fire: bool,
}

impl InputState {
    /// No key held.
    pub fn idle() -> (r: InputState)
        ensures
            r == (InputState { up: false, down: false, left: false, right: false, fire: false }),
    {
        InputState { up: false, down: false, left: false, right: false, fire: false }
    }
}

/// One tick of drag: the speed loses DRAG_NUM/DRAG_DEN of itself, rounded
/// down, but at least one unit, so that it strictly approaches zero and
/// reaches it after finitely many ticks. Zero stays zero and the sign is
/// never flipped.
pub open spec fn drag1(v: int) -> int {
    if v == 0 {
        0
    } else {
        let m = mag(v);
        let d0 = m * (DRAG_NUM as int) / (DRAG_DEN as int);
        let d = if d0 < 1 {
            1
        } else {
            d0
        };
        if v > 0 {
            v - d
        } else {
            v + d
        }
    }
}

/// `n` ticks of drag.
pub open spec fn drag_iter(v: int, n: nat) -> int
    decreases n,
{
    if n == 0 {
        v
    } else {
        drag_iter(drag1(v), (n - 1) as nat)
    }
}

/// Drag convergence, first half: a nonzero speed strictly loses magnitude
/// each tick and never flips sign.
pub proof fn lemma_drag_strictly_decreases(v: int)
    requires
        v != 0,
    ensures
        mag(drag1(v)) < mag(v),
        v > 0 ==> 0 <= drag1(v) < v,
        v < 0 ==> v < drag1(v) <= 0,
{
    let m = mag(v);
    let d0 = m * (DRAG_NUM as int) / (DRAG_DEN as int);
    assert(d0 * 100 + m * 13 % 100 == m * 13) by {
        vstd::arithmetic::div_mod::lemma_fundamental_div_mod(m * 13, 100);
    }
    assert(m * 13 % 100 >= 0);
    assert(m * 13 < m * 100) by {
        vstd::arithmetic::mul::lemma_mul_strict_inequality(13, 100, m);
    }
    assert(d0 < m);
}

/// Drag convergence, second half: from any starting speed, at most `mag(v)`
/// ticks of drag reach exactly zero.
pub proof fn lemma_drag_reaches_zero(v: int, n: nat)
    requires
        mag(v) <= n,
    ensures
        drag_iter(v, n) == 0,
    decreases n,
{
    if n == 0 {
    } else if v == 0 {
        lemma_drag_reaches_zero(drag1(0), (n - 1) as nat);
    } else {
        lemma_drag_strictly_decreases(v);
        lemma_drag_reaches_zero(drag1(v), (n - 1) as nat);
    }
}

/// Law: with no direction key held and the player's speed within its top
/// speed, one player tick strictly shrinks a nonzero speed magnitude on each
/// axis and leaves a zero speed at zero; with `lemma_drag_reaches_zero`,
/// both speeds reach exactly zero within `mag(speed)` ticks.
pub proof fn lemma_player_drag_convergence(p: Entity, inp: InputState)
    requires
        !inp.up,
        !inp.down,
        !inp.left,
        !inp.right,
        mag(p.vx as int) <= p.top_speed as int,
        mag(p.vy as int) <= p.top_speed as int,
    ensures
        p.vx != 0 ==> mag(player_step(p, inp).vx as int) < mag(p.vx as int),
        p.vy != 0 ==> mag(player_step(p, inp).vy as int) < mag(p.vy as int),
        p.vx == 0 ==> player_step(p, inp).vx == 0,
        p.vy == 0 ==> player_step(p, inp).vy == 0,
{
    if p.vx != 0 {
        lemma_drag_strictly_decreases(p.vx as int);
    }
    if p.vy != 0 {
        lemma_drag_strictly_decreases(p.vy as int);
    }
}

/// Executable drag on one axis.
pub fn drag_speed(v: i32) -> (r: i32)
    requires
        -SPEED_LIMIT <= v <= SPEED_LIMIT,
    ensures
        r == drag1(v as int),
        mag(r as int) <= mag(v as int),
{
    if v == 0 {
        0
    } else {
        proof {
            lemma_drag_strictly_decreases(v as int);
        }
        let m: i32 = if v > 0 {
            v
        } else {
            -v
        };
        let d0: i32 = m * DRAG_NUM / DRAG_DEN;
        let d: i32 = if d0 < 1 {
            1
        } else {
            d0
        };
        if v > 0 {
            v - d
        } else {
            v + d
        }
    }
}

/// Clamp a speed to [-top, top].
pub open spec fn clamp_speed(v: int, top: int) -> int {
    if v > top {
        top
    } else if v < -top {
        -top
    } else {
        v
    }
}

/// Keyboard thrust: +-THRUST per held direction key, then a hard clamp so
/// the speed magnitude never exceeds the player's top speed.
pub open spec fn player_accel(p: Entity, inp: InputState) -> Entity {
    let vy1 = p.vy + (if inp.down {
        THRUST as int
    } else {
        0
    }) - (if inp.up {
        THRUST as int
    } else {
        0
    });
    let vx1 = p.vx + (if inp.right {
        THRUST as int
    } else {
        0
    }) - (if inp.left {
        THRUST as int
    } else {
        0
    });
    Entity {
        vx: clamp_speed(vx1, p.top_speed as int) as i32,
        vy: clamp_speed(vy1, p.top_speed as int) as i32,
        ..p
    }
}

/// Per-axis gated move: the player advances along an axis only while the
/// pre-move coordinate lies strictly inside the inner arena on that axis.
pub open spec fn player_move(p: Entity) -> Entity {
    let x1 = if 0 < p.x < ARENA_MAX_X {
        p.x + p.vx
    } else {
        p.x as int
    };
    let y1 = if 0 < p.y < ARENA_MAX_Y {
        p.y + p.vy
    } else {
        p.y as int
    };
    Entity { x: x1 as i32, y: y1 as i32, ..p }
}

/// Drag on both axes.
pub open spec fn player_drag(p: Entity) -> Entity {
    Entity { vx: drag1(p.vx as int) as i32, vy: drag1(p.vy as int) as i32, ..p }
}

/// One player tick: thrust, gated move, then drag.
pub open spec fn player_step(p: Entity, inp: InputState) -> Entity {
    player_drag(player_move(player_accel(p, inp)))
}

/// Push-back: an axis that crossed the inner arena is shoved back by exactly
/// the top speed and its speed is zeroed, so the player cannot stick to an
/// edge.
pub open spec fn player_clamp(p: Entity) -> Entity {
    let p1 = if p.y > ARENA_MAX_Y {
        Entity { vy: 0, y: (p.y - p.top_speed) as i32, ..p }
    } else if p.y < 0 {
        Entity { vy: 0, y: (p.y + p.top_speed) as i32, ..p }
    } else {
        p
    };
    if p1.x > ARENA_MAX_X {
        Entity { vx: 0, x: (p1.x - p1.top_speed) as i32, ..p1 }
    } else if p1.x < 0 {
        Entity { vx: 0, x: (p1.x + p1.top_speed) as i32, ..p1 }
    } else {
        p1
    }
}

/// Thrust phase of the player tick.
fn accel_exec(p: &mut Entity, inp: InputState)
    requires
        old(p).valid(),
    ensures
        *final(p) == player_accel(*old(p), inp),
        final(p).valid(),
        mag(final(p).vx as int) <= final(p).top_speed as int,
        mag(final(p).vy as int) <= final(p).top_speed as int,
{
    let top = p.top_speed;
    let mut vy: i32 = p.vy;
    if inp.down {
        vy = vy + THRUST;
    }
    if inp.up {
        vy = vy - THRUST;
    }
    if vy > top {
        vy = top;
    }
    if vy < -top {
        vy = -top;
    }
    let mut vx: i32 = p.vx;
    if inp.right {
        vx = vx + THRUST;
    }
    if inp.left {
        vx = vx - THRUST;
    }
    if vx > top {
        vx = top;
    }
    if vx < -top {
        vx = -top;
    }
    p.vx = vx;
    p.vy = vy;
}

/// Gated-move phase of the player tick.
fn move_exec(p: &mut Entity)
    requires
        old(p).valid(),
    ensures
        *final(p) == player_move(*old(p)),
        final(p).valid(),
{
    if 0 < p.x && p.x < ARENA_MAX_X {
        let d = p.vx;
        p.x = p.x + d;
    }
    if 0 < p.y && p.y < ARENA_MAX_Y {
        let d = p.vy;
        p.y = p.y + d;
    }
}

/// Drag phase of the player tick.
fn drag_exec(p: &mut Entity)
    requires
        old(p).valid(),
    ensures
        *final(p) == player_drag(*old(p)),
        final(p).valid(),
        mag(final(p).vx as int) <= mag(old(p).vx as int),
        mag(final(p).vy as int) <= mag(old(p).vy as int),
{
    p.vx = drag_speed(p.vx);
    p.vy = drag_speed(p.vy);
}

/// Executable player tick (thrust, gated move, drag).
pub fn player_update(p: &mut Entity, inp: InputState)
    requires
        old(p).valid(),
    ensures
        *final(p) == player_step(*old(p), inp),
        final(p).valid(),
        mag(final(p).vx as int) <= final(p).top_speed as int,
        mag(final(p).vy as int) <= final(p).top_speed as int,
{
    accel_exec(p, inp);
    move_exec(p);
    drag_exec(p);
}

/// Executable push-back of the player into the inner arena.
pub fn clamp_player(p: &mut Entity)
    requires
        old(p).valid(),
    ensures
        *final(p) == player_clamp(*old(p)),
        final(p).valid(),
        mag(old(p).vx as int) <= old(p).top_speed as int
            ==> mag(final(p).vx as int) <= final(p).top_speed as int,
        mag(old(p).vy as int) <= old(p).top_speed as int
            ==> mag(final(p).vy as int) <= final(p).top_speed as int,
{
    if p.y > ARENA_MAX_Y {
        p.vy = 0;
        let d = p.top_speed;
        p.y = p.y - d;
    } else if p.y < 0 {
        p.vy = 0;
        let d = p.top_speed;
        p.y = p.y + d;
    }
    if p.x > ARENA_MAX_X {
        p.vx = 0;
        let d = p.top_speed;
        p.x = p.x - d;
    } else if p.x < 0 {
        p.vx = 0;
        let d = p.top_speed;
        p.x = p.x + d;
    }
}

/// Where an entity stands after moving by its speed.
pub open spec fn moved_entity(e: Entity) -> Entity {
    Entity { x: (e.x + e.vx) as i32, y: (e.y + e.vy) as i32, ..e }
}

/// Whether an entity is within the outer despawn margins.
pub open spec fn in_despawn_bounds(e: Entity) -> bool {
    &&& DESPAWN_MIN_X <= e.x <= DESPAWN_MAX_X
    &&& DESPAWN_MIN_Y <= e.y <= DESPAWN_MAX_Y
}

/// All entities, moved by their speeds.
pub open spec fn moved_all(s: Seq<Entity>) -> Seq<Entity> {
    Seq::new(s.len(), |i: int| moved_entity(s[i]))
}

/// The entities that survive culling, in order.
pub open spec fn cull_spec(s: Seq<Entity>) -> Seq<Entity>
    decreases s.len(),
{
    if s.len() == 0 {
        Seq::empty()
    } else {
        let rest = cull_spec(s.drop_last());
        if in_despawn_bounds(s.last()) {
            rest.push(s.last())
        } else {
            rest
        }
    }
}

/// One tick of the integrator over the whole registry: every entity moves by
/// its speed, then any entity outside the despawn margins is removed — in
/// that order, so an entity receives its final frame of motion before it is
/// culled.
pub open spec fn integrate_spec(s: Seq<Entity>) -> Seq<Entity> {
    cull_spec(moved_all(s))
}

proof fn lemma_cull_push(s: Seq<Entity>, x: Entity)
    ensures
        cull_spec(s.push(x)) == (if in_despawn_bounds(x) {
            cull_spec(s).push(x)
        } else {
            cull_spec(s)
        }),
{
    assert(s.push(x).drop_last() =~= s);
    assert(s.push(x).last() == x);
}

/// Move every entity by its speed, then cull anything outside the despawn
/// margins — one integrator tick for the non-player population. Every
/// survivor is the moved image of exactly one source entity.
pub fn integrate(r: &mut Registry)
    requires
        old(r).wf(),
    ensures
        final(r).wf(),
        final(r).entities@ == integrate_spec(old(r).entities@),
        final(r).entities@.len() <= old(r).entities@.len(),
        forall|k: int|
            0 <= k < final(r).entities@.len() ==> exists|i: int|
                0 <= i < old(r).entities@.len() && #[trigger] final(r).entities@[k]
                    == moved_entity(old(r).entities@[i]),
{
    let s = Ghost(r.entities@);
    let ghost ms = moved_all(s@);
    let n = r.entities.len();
    let mut out: Vec<Entity> = Vec::new();
    let mut i: usize = 0;
    while i < n
        invariant
            i <= n,
            n == s@.len(),
            r.entities@ == s@,
            old(r).wf(),
            s@ == old(r).entities@,
            ms == moved_all(s@),
            out@ == cull_spec(ms.take(i as int)),
            out@.len() <= i,
            forall|a: int, b: int| 0 <= a < b < out@.len() ==> out@[a].id != out@[b].id,
            forall|k: int| 0 <= k < out@.len() ==> #[trigger] out@[k].valid(),
            forall|k: int|
                0 <= k < out@.len() ==> exists|j: int|
                    0 <= j < i && #[trigger] out@[k] == moved_entity(s@[j]),
        decreases n - i,
    {
        let e = r.entities[i];
        assert(e.valid());
        let m = Entity { x: e.x + e.vx, y: e.y + e.vy, ..e };
        assert(m == ms[i as int]);
        proof {
            lemma_cull_push(ms.take(i as int), ms[i as int]);
            assert(ms.take(i + 1) =~= ms.take(i as int).push(ms[i as int]));
        }
        if m.x >= DESPAWN_MIN_X && m.x <= DESPAWN_MAX_X && m.y >= DESPAWN_MIN_Y && m.y
            <= DESPAWN_MAX_Y {
            proof {
                // the incoming id is fresh among the survivors so far
                assert forall|a: int| 0 <= a < out@.len() implies out@[a].id != m.id by {
                    let j = choose|j: int| 0 <= j < i && #[trigger] out@[a] == moved_entity(
                        s@[j],
                    );
                    assert(s@[j].id != s@[i as int].id);
                }
                assert(m.valid());
            }
            out.push(m);
            proof {
                assert forall|k: int| 0 <= k < out@.len() implies exists|j: int|
                    0 <= j < i + 1 && #[trigger] out@[k] == moved_entity(s@[j]) by {
                    if k == out@.len() - 1 {
                        assert(out@[k] == moved_entity(s@[i as int]));
                    } else {
                        let j = choose|j: int| 0 <= j < i && #[trigger] out@[k] == moved_entity(
                            s@[j],
                        );
                        assert(out@[k] == moved_entity(s@[j]));
                    }
                }
            }
        }
        i = i + 1;
    }
    proof {
        assert(ms.take(n as int) =~= ms);
        assert(out@ == integrate_spec(s@));
    }
    r.entities = out;
}

} // verus!
