use vstd::prelude::*;

use crate::collision::{after_hits, collision_sweep, sweep_spec};
use crate::config::{
    CONTACT_DAMAGE, DEFAULT_PUNCH, DT_LIMIT_MS, ENEMY_HEALTH, ENEMY_RADIUS, ENEMY_SPAWN_X,
    ENEMY_SPAWN_Y, FIRE_COOLDOWN_MS, FRAME_INTERVAL_MS, MODEL_ENEMY, MODEL_PLAYER, PLAYER_HEALTH,
    PLAYER_RADIUS, PLAYER_START_X, PLAYER_START_Y, PLAYER_TOP_SPEED, PROJECTILE_HEALTH,
    PROJECTILE_RADIUS, PROJECTILE_SPEED, PROJECTILE_TOP_SPEED, PUNCH_LIMIT, SWEEP_CAP,
    WAVE_PERIOD_MS, WAVE_SIZE,
};
use crate::entity::{Entity, EntityKind, MovePattern, WeaponKind};
use crate::ids::next_id_of;
use crate::motion::{
    clamp_player, integrate, integrate_spec, mag, moved_entity, player_clamp, player_step,
    player_update, InputState,
};
use crate::registry::{new_entity, Registry};

verus! {

/// The player entity as it stands when the game starts.
pub open spec fn initial_player() -> Entity {
    Entity {
        id: 0,
        kind: EntityKind::Player,
        weapon: WeaponKind::PlayerBasic,
        pattern: MovePattern::Stationary,
        model: MODEL_PLAYER,
        x: PLAYER_START_X,
        y: PLAYER_START_Y,
        vx: 0,
        vy: 0,
        top_speed: PLAYER_TOP_SPEED,
        health: PLAYER_HEALTH,
        collision_damage: CONTACT_DAMAGE,
        is_tangible: true,
        punch_through: 0,
        radius: PLAYER_RADIUS,
    }
}

/// The enemy the spawn director creates: health `ENEMY_HEALTH`, zero initial
/// speed, at the fixed spawn point, drawn with the enemy model.
pub open spec fn enemy_record(id: u32, pattern: MovePattern) -> Entity {
    new_entity(
        id,
        EntityKind::Enemy,
        WeaponKind::Unarmed,
        pattern,
        ENEMY_HEALTH,
        MODEL_ENEMY,
        ENEMY_SPAWN_X,
        ENEMY_SPAWN_Y,
        0,
        0,
        0,
        0,
        ENEMY_RADIUS,
    )
}

/// The projectile the player's basic weapon fires: straight up at speed
/// `PROJECTILE_SPEED` from the firer's position, drawn with the player model.
pub open spec fn projectile_record(id: u32, x: i32, y: i32, punch_through: i32) -> Entity {
    new_entity(
        id,
        EntityKind::PlayerProjectile,
        WeaponKind::Unarmed,
        MovePattern::Stationary,
        PROJECTILE_HEALTH,
        MODEL_PLAYER,
        x,
        y,
        0,
        (-PROJECTILE_SPEED) as i32,
        PROJECTILE_TOP_SPEED,
        punch_through,
        PROJECTILE_RADIUS,
    )
}

/// The entity population after a wave of `count` enemies spawned, each
/// getting the smallest id free at its moment of creation and the pattern at
/// its index in the pattern list (cycling).
pub open spec fn wave_spawn(
    s: Seq<Entity>,
    pats: Seq<MovePattern>,
    idx: int,
    count: nat,
) -> Seq<Entity>
    decreases count,
{
    if count == 0 {
        s
    } else {
        wave_spawn(
            s.push(enemy_record(next_id_of(s), pats[idx % pats.len() as int])),
            pats,
            idx + 1,
            (count - 1) as nat,
        )
    }
}

/// Cooldown remaining after `dt` milliseconds pass.
pub open spec fn cooldown_after(cd: u64, dt: u64) -> u64 {
    if dt >= cd {
        0
    } else {
        (cd - dt) as u64
    }
}

/// Whether a tick with held fire actually emits a projectile: the cooldown
/// has run out and the player's weapon is the basic one.
pub open spec fn fired_in_tick(st: GameState, inp: InputState, dt: u64) -> bool {
    &&& inp.fire
    &&& cooldown_after(st.fire_cooldown_ms, dt) == 0
    &&& st.p1.weapon == WeaponKind::PlayerBasic
}

/// The registry population right after the fire phase of a tick.
pub open spec fn entities_after_fire(st: GameState, inp: InputState, dt: u64) -> Seq<Entity> {
    if fired_in_tick(st, inp, dt) {
        st.registry.entities@.push(
            projectile_record(next_id_of(st.registry.entities@), st.p1.x, st.p1.y, DEFAULT_PUNCH),
        )
    } else {
        st.registry.entities@
    }
}

/// The registry population after fire, integration and the collision sweep.
pub open spec fn entities_mid_tick(st: GameState, inp: InputState, dt: u64) -> Seq<Entity> {
    sweep_spec(integrate_spec(entities_after_fire(st, inp, dt)))
}

/// Whether this tick's time pushes the wave timer over its period.
pub open spec fn wave_due(st: GameState, dt: u64) -> bool {
    st.wave_timer_ms + dt >= WAVE_PERIOD_MS
}

/// The registry population when the tick ends.
pub open spec fn entities_after_tick(st: GameState, inp: InputState, dt: u64) -> Seq<Entity> {
    if wave_due(st, dt) {
        wave_spawn(entities_mid_tick(st, inp, dt), st.patterns@, 0, WAVE_SIZE as nat)
    } else {
        entities_mid_tick(st, inp, dt)
    }
}

/// Process-wide simulation state: the player (held outside the generic
/// registry and handled specially), the live registry, the timers, the score
/// and the available movement patterns.
pub struct GameState {
    /// The player entity; always present, never inside `registry`.
    pub p1: Entity,
    /// Every live non-player entity.
    pub registry: Registry,
    /// Accumulated score, exposed for the external display layer.
    pub score: i32,
    /// Frame pacing accumulator, in milliseconds (see `frame_due`).
    pub frame_timer_ms: u64,
    /// Time accumulated toward the next wave, in milliseconds.
    pub wave_timer_ms: u64,
    /// Time left until the weapon may fire again, in milliseconds.
    pub fire_cooldown_ms: u64,
    /// The movement patterns waves cycle through.
    pub patterns: Vec<MovePattern>,
}

impl GameState {
    /// The parts of well-formedness that hold at every point of a tick:
    /// a valid player of the player kind whose speed respects its top speed,
    /// a well-formed registry holding no player, and a nonempty pattern list.
    pub open spec fn core_wf(self) -> bool {
        &&& self.p1.valid()
        &&& self.p1.kind == EntityKind::Player
        &&& mag(self.p1.vx as int) <= self.p1.top_speed as int
        &&& mag(self.p1.vy as int) <= self.p1.top_speed as int
        &&& self.registry.wf()
        &&& forall|i: int|
            0 <= i < self.registry.entities@.len()
                ==> (#[trigger] self.registry.entities@[i]).kind != EntityKind::Player
        &&& self.patterns@.len() >= 1
    }

    /// Full invariant between ticks: `core_wf` plus timer bounds.
    pub open spec fn wf(self) -> bool {
        &&& self.core_wf()
        &&& self.wave_timer_ms < WAVE_PERIOD_MS
        &&& self.fire_cooldown_ms <= FIRE_COOLDOWN_MS
    }

    /// The state at startup: the player at its start position, an empty
    /// registry, zeroed timers and score, and the two drifting patterns.
    pub fn new() -> (st: GameState)
        ensures
            st.wf(),
            st.p1 == initial_player(),
            st.registry.entities@ == Seq::<Entity>::empty(),
            st.score == 0,
            st.frame_timer_ms == 0,
            st.wave_timer_ms == 0,
            st.fire_cooldown_ms == 0,
            st.patterns@ == seq![MovePattern::LeftToRight, MovePattern::RightToLeft],
    {
        let patterns = vec![MovePattern::LeftToRight, MovePattern::RightToLeft];
        proof {
            assert(patterns@ =~= seq![MovePattern::LeftToRight, MovePattern::RightToLeft]);
        }
        GameState {
            p1: Entity {
                id: 0,
                kind: EntityKind::Player,
                weapon: WeaponKind::PlayerBasic,
                pattern: MovePattern::Stationary,
                model: MODEL_PLAYER,
                x: PLAYER_START_X,
                y: PLAYER_START_Y,
                vx: 0,
                vy: 0,
                top_speed: PLAYER_TOP_SPEED,
                health: PLAYER_HEALTH,
                collision_damage: CONTACT_DAMAGE,
                is_tangible: true,
                punch_through: 0,
                radius: PLAYER_RADIUS,
            },
            registry: Registry::new(),
            score: 0,
            frame_timer_ms: 0,
            wave_timer_ms: 0,
            fire_cooldown_ms: 0,
            patterns,
        }
    }

    /// Accumulated score, for the external display layer.
    pub fn score(&self) -> (r: i32)
        ensures
            r == self.score,
    {
        self.score
    }

    /// Frame pacing: accumulate `dt_ms`; once at least `FRAME_INTERVAL_MS`
    /// has built up, consume it and report that a tick is due.
    pub fn frame_due(&mut self, dt_ms: u64) -> (due: bool)
        requires
            old(self).frame_timer_ms < FRAME_INTERVAL_MS,
            dt_ms <= DT_LIMIT_MS,
        ensures
            due == (old(self).frame_timer_ms + dt_ms >= FRAME_INTERVAL_MS),
            due ==> final(self).frame_timer_ms == 0,
            !due ==> final(self).frame_timer_ms == old(self).frame_timer_ms + dt_ms,
            final(self).p1 == old(self).p1,
            final(self).registry.entities@ == old(self).registry.entities@,
            final(self).score == old(self).score,
            final(self).wave_timer_ms == old(self).wave_timer_ms,
            final(self).fire_cooldown_ms == old(self).fire_cooldown_ms,
            final(self).patterns@ == old(self).patterns@,
            final(self).frame_timer_ms < FRAME_INTERVAL_MS,
    {
        let t = self.frame_timer_ms + dt_ms;
        if t >= FRAME_INTERVAL_MS {
            self.frame_timer_ms = 0;
            true
        } else {
            self.frame_timer_ms = t;
            false
        }
    }

    /// Spawn one projectile for the firing entity `e` (usually the player):
    /// the basic weapon emits one projectile straight up from `e`'s
    /// position; an unarmed entity fires nothing, silently.
    pub fn bullet(&mut self, e: Entity, punch_through: i32)
        requires
            old(self).core_wf(),
            old(self).registry.entities@.len() < u32::MAX as usize,
            e.valid(),
            0 <= punch_through <= PUNCH_LIMIT,
        ensures
            final(self).core_wf(),
            e.weapon == WeaponKind::PlayerBasic ==> final(self).registry.entities@
                == old(self).registry.entities@.push(
                projectile_record(
                    next_id_of(old(self).registry.entities@),
                    e.x,
                    e.y,
                    punch_through,
                ),
            ),
            e.weapon == WeaponKind::Unarmed ==> final(self).registry.entities@
                == old(self).registry.entities@,
            final(self).p1 == old(self).p1,
            final(self).score == old(self).score,
            final(self).frame_timer_ms == old(self).frame_timer_ms,
            final(self).wave_timer_ms == old(self).wave_timer_ms,
            final(self).fire_cooldown_ms == old(self).fire_cooldown_ms,
            final(self).patterns@ == old(self).patterns@,
    {
        match e.weapon {
            WeaponKind::PlayerBasic => {
                let x = e.x;
                let y = e.y;
                self.registry.create_entity(
                    EntityKind::PlayerProjectile,
                    WeaponKind::Unarmed,
                    MovePattern::Stationary,
                    PROJECTILE_HEALTH,
                    MODEL_PLAYER,
                    x,
                    y,
                    0,
                    -PROJECTILE_SPEED,
                    PROJECTILE_TOP_SPEED,
                    punch_through,
                    PROJECTILE_RADIUS,
                );
                proof {
                    let s = old(self).registry.entities@;
                    let t = self.registry.entities@;
                    assert(t == s.push(projectile_record(next_id_of(s), e.x, e.y, punch_through)));
                    assert forall|i: int| 0 <= i < t.len() implies (#[trigger] t[i]).kind
                        != EntityKind::Player by {
                        if i < s.len() {
                            assert(s[i].kind != EntityKind::Player);
                        }
                    }
                }
            },
            WeaponKind::Unarmed => {
            },
        }
    }

    /// Spawn one enemy at the fixed spawn point with the given pattern.
    pub fn spawn_enemy(&mut self, pattern: MovePattern)
        requires
            old(self).core_wf(),
            old(self).registry.entities@.len() < u32::MAX as usize,
        ensures
            final(self).core_wf(),
            final(self).registry.entities@ == old(self).registry.entities@.push(
                enemy_record(next_id_of(old(self).registry.entities@), pattern),
            ),
            final(self).p1 == old(self).p1,
            final(self).score == old(self).score,
            final(self).frame_timer_ms == old(self).frame_timer_ms,
            final(self).wave_timer_ms == old(self).wave_timer_ms,
            final(self).fire_cooldown_ms == old(self).fire_cooldown_ms,
            final(self).patterns@ == old(self).patterns@,
    {
        self.registry.create_entity(
            EntityKind::Enemy,
            WeaponKind::Unarmed,
            pattern,
            ENEMY_HEALTH,
            MODEL_ENEMY,
            ENEMY_SPAWN_X,
            ENEMY_SPAWN_Y,
            0,
            0,
            0,
            0,
            ENEMY_RADIUS,
        );
        proof {
            let s = old(self).registry.entities@;
            let t = self.registry.entities@;
            assert(t == s.push(enemy_record(next_id_of(s), pattern)));
            assert forall|i: int| 0 <= i < t.len() implies (#[trigger] t[i]).kind
                != EntityKind::Player by {
                if i < s.len() {
                    assert(s[i].kind != EntityKind::Player);
                }
            }
        }
    }

    /// Wave timer: accumulate `dt_ms`; when the period is reached, spawn one
    /// wave of `WAVE_SIZE` enemies (patterns assigned cycling through the
    /// pattern list) and reset the timer to zero.
    pub fn spawn_cycle(&mut self, dt_ms: u64)
        requires
            old(self).core_wf(),
            old(self).wave_timer_ms < WAVE_PERIOD_MS,
            dt_ms <= DT_LIMIT_MS,
            old(self).registry.entities@.len() + WAVE_SIZE < u32::MAX as usize,
        ensures
            final(self).core_wf(),
            final(self).wave_timer_ms < WAVE_PERIOD_MS,
            old(self).wave_timer_ms + dt_ms < WAVE_PERIOD_MS ==> final(self).registry.entities@
                == old(self).registry.entities@ && final(self).wave_timer_ms
                == old(self).wave_timer_ms + dt_ms,
            old(self).wave_timer_ms + dt_ms >= WAVE_PERIOD_MS ==> final(self).registry.entities@
                == wave_spawn(
                old(self).registry.entities@,
                old(self).patterns@,
                0,
                WAVE_SIZE as nat,
            ) && final(self).wave_timer_ms == 0,
            final(self).registry.entities@.len() <= old(self).registry.entities@.len()
                + WAVE_SIZE,
            final(self).p1 == old(self).p1,
            final(self).score == old(self).score,
            final(self).frame_timer_ms == old(self).frame_timer_ms,
            final(self).fire_cooldown_ms == old(self).fire_cooldown_ms,
            final(self).patterns@ == old(self).patterns@,
    {
        let t = self.wave_timer_ms + dt_ms;
        if t >= WAVE_PERIOD_MS {
            let ghost goal = wave_spawn(
                self.registry.entities@,
                self.patterns@,
                0,
                WAVE_SIZE as nat,
            );
            let mut w: usize = 0;
            while w < WAVE_SIZE
                invariant
                    w <= WAVE_SIZE,
                    self.core_wf(),
                    self.registry.entities@.len() == old(self).registry.entities@.len() + w,
                    old(self).registry.entities@.len() + WAVE_SIZE < u32::MAX as usize,
                    wave_spawn(
                        self.registry.entities@,
                        self.patterns@,
                        w as int,
                        (WAVE_SIZE - w) as nat,
                    ) == goal,
                    goal == wave_spawn(
                        old(self).registry.entities@,
                        old(self).patterns@,
                        0,
                        WAVE_SIZE as nat,
                    ),
                    self.p1 == old(self).p1,
                    self.score == old(self).score,
                    self.frame_timer_ms == old(self).frame_timer_ms,
                    self.wave_timer_ms == old(self).wave_timer_ms,
                    self.fire_cooldown_ms == old(self).fire_cooldown_ms,
                    self.patterns@ == old(self).patterns@,
                decreases WAVE_SIZE - w,
            {
                let idx = w % self.patterns.len();
                let pattern = self.patterns[idx];
                assert(pattern == self.patterns@[(w as int) % self.patterns@.len() as int]);
                self.spawn_enemy(pattern);
                w = w + 1;
            }
            self.wave_timer_ms = 0;
        } else {
            self.wave_timer_ms = t;
        }
    }

    /// Fire the player's weapon, rate-limited: a shot only leaves when the
    /// cooldown has fully run out, and firing restarts the cooldown.
    pub fn fire_weapon(&mut self, punch_through: i32)
        requires
            old(self).core_wf(),
            old(self).registry.entities@.len() < u32::MAX as usize,
            0 <= punch_through <= PUNCH_LIMIT,
        ensures
            final(self).core_wf(),
            old(self).fire_cooldown_ms == 0 && old(self).p1.weapon == WeaponKind::PlayerBasic
                ==> final(self).registry.entities@ == old(self).registry.entities@.push(
                projectile_record(
                    next_id_of(old(self).registry.entities@),
                    old(self).p1.x,
                    old(self).p1.y,
                    punch_through,
                ),
            ) && final(self).fire_cooldown_ms == FIRE_COOLDOWN_MS,
            old(self).fire_cooldown_ms == 0 && old(self).p1.weapon != WeaponKind::PlayerBasic
                ==> final(self).registry.entities@ == old(self).registry.entities@ && final(self).fire_cooldown_ms == old(self).fire_cooldown_ms,
            old(self).fire_cooldown_ms != 0 ==> final(self).registry.entities@
                == old(self).registry.entities@ && final(self).fire_cooldown_ms == old(self).fire_cooldown_ms,
            final(self).p1 == old(self).p1,
            final(self).score == old(self).score,
            final(self).frame_timer_ms == old(self).frame_timer_ms,
            final(self).wave_timer_ms == old(self).wave_timer_ms,
            final(self).patterns@ == old(self).patterns@,
    {
        if self.fire_cooldown_ms == 0 {
            let firer = self.p1;
            match firer.weapon {
                WeaponKind::PlayerBasic => {
                    self.bullet(firer, punch_through);
                    self.fire_cooldown_ms = FIRE_COOLDOWN_MS;
                },
                WeaponKind::Unarmed => {
                },
            }
        }
    }

    /// One simulation tick, in the fixed per-frame order: cooldown runs
    /// down, a held fire key may emit a projectile (at the player's pre-move
    /// position), the player thrusts, moves and feels drag, every other
    /// entity moves and is culled at the despawn margins, the collision
    /// sweep over the registry population resolves hits, the player is
    /// pushed back inside the arena, and the wave timer advances.
    #[verifier::rlimit(100)]
    pub fn tick(&mut self, inp: InputState, dt_ms: u64)
        requires
            old(self).wf(),
            dt_ms <= DT_LIMIT_MS,
            old(self).registry.entities@.len() < SWEEP_CAP,
            old(self).registry.entities@.len() + 1 + WAVE_SIZE < u32::MAX as usize,
        ensures
            final(self).wf(),
            final(self).p1 == player_clamp(player_step(old(self).p1, inp)),
            final(self).registry.entities@ == entities_after_tick(*old(self), inp, dt_ms),
            final(self).fire_cooldown_ms == (if fired_in_tick(*old(self), inp, dt_ms) {
                FIRE_COOLDOWN_MS
            } else {
                cooldown_after(old(self).fire_cooldown_ms, dt_ms)
            }),
            final(self).wave_timer_ms == (if wave_due(*old(self), dt_ms) {
                0
            } else {
                (old(self).wave_timer_ms + dt_ms) as u64
            }),
            final(self).score == old(self).score,
            final(self).frame_timer_ms == old(self).frame_timer_ms,
            final(self).patterns@ == old(self).patterns@,
    {
        // cooldown runs down first, so this tick's fire check sees it
        if dt_ms >= self.fire_cooldown_ms {
            self.fire_cooldown_ms = 0;
        } else {
            self.fire_cooldown_ms = self.fire_cooldown_ms - dt_ms;
        }

        // fire phase, at the player's pre-move position
        if inp.fire {
            self.fire_weapon(DEFAULT_PUNCH);
        }
        assert(self.registry.entities@ == entities_after_fire(*old(self), inp, dt_ms));

        // player thrust, gated move, drag
        player_update(&mut self.p1, inp);

        // every other entity moves, then out-of-bounds entities are culled
        integrate(&mut self.registry);
        proof {
            let before = entities_after_fire(*old(self), inp, dt_ms);
            assert forall|i: int|
                0 <= i < self.registry.entities@.len() implies (#[trigger] self.registry.entities@[i]).kind
                != EntityKind::Player by {
                let j = choose|j: int| 0 <= j < before.len() && self.registry.entities@[i]
                    == moved_entity(before[j]);
                assert(before[j].kind != EntityKind::Player);
            }
        }

        // pairwise collision sweep over the registry population
        collision_sweep(&mut self.registry);
        proof {
            let mid = integrate_spec(entities_after_fire(*old(self), inp, dt_ms));
            assert forall|i: int|
                0 <= i < self.registry.entities@.len() implies (#[trigger] self.registry.entities@[i]).kind
                != EntityKind::Player by {
                let j = choose|j: int| 0 <= j < mid.len() && self.registry.entities@[i]
                    == after_hits(mid, j);
                assert(mid[j].kind != EntityKind::Player);
            }
        }
        assert(self.registry.entities@ == entities_mid_tick(*old(self), inp, dt_ms));

        // push the player back inside the arena
        clamp_player(&mut self.p1);

        // wave timer and wave spawning
        self.spawn_cycle(dt_ms);
    }
}

} // verus!
