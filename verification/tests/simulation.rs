use shooter_core::collision::{collision_sweep, entities_collide, kind_pair_collides};
use shooter_core::entity::{apply_pattern, Entity, EntityKind, MovePattern, WeaponKind};
use shooter_core::game::GameState;
use shooter_core::motion::{clamp_player, integrate, player_update, InputState};
use shooter_core::registry::Registry;

fn plain_entity(kind: EntityKind, x: i32, y: i32, vx: i32, vy: i32) -> Entity {
    Entity {
        id: 0,
        kind,
        weapon: WeaponKind::Unarmed,
        pattern: MovePattern::Stationary,
        model: 0,
        x,
        y,
        vx,
        vy,
        top_speed: 5,
        health: 5,
        collision_damage: 1,
        is_tangible: true,
        punch_through: 0,
        radius: 30,
    }
}

fn spawn(reg: &mut Registry, kind: EntityKind, x: i32, y: i32, vx: i32, vy: i32) -> u32 {
    reg.create_entity(
        kind,
        WeaponKind::Unarmed,
        MovePattern::Stationary,
        5,
        0,
        x,
        y,
        vx,
        vy,
        5,
        0,
        30,
    )
}

// --- id allocation -------------------------------------------------------

#[test]
fn id_allocation_from_empty_counts_up() {
    let mut reg = Registry::new();
    assert_eq!(spawn(&mut reg, EntityKind::Object, 0, 0, 0, 0), 0);
    assert_eq!(spawn(&mut reg, EntityKind::Object, 0, 0, 0, 0), 1);
    assert_eq!(spawn(&mut reg, EntityKind::Object, 0, 0, 0, 0), 2);
    assert_eq!(reg.count(), 3);
}

#[test]
fn id_allocation_fills_smallest_gap() {
    let mut reg = Registry::new();
    for _ in 0..4 {
        spawn(&mut reg, EntityKind::Object, 0, 0, 0, 0);
    }
    // live ids {0, 1, 2, 3}; free id 2 and the next create takes it
    reg.despawn(2);
    assert!(!reg.contains_id(2));
    assert_eq!(spawn(&mut reg, EntityKind::Object, 0, 0, 0, 0), 2);
    assert!(reg.contains_id(2));
}

#[test]
fn live_ids_stay_pairwise_distinct() {
    let mut reg = Registry::new();
    for _ in 0..6 {
        spawn(&mut reg, EntityKind::Object, 0, 0, 0, 0);
    }
    reg.despawn(1);
    reg.despawn(4);
    spawn(&mut reg, EntityKind::Object, 0, 0, 0, 0);
    let items = reg.iterate();
    for i in 0..items.len() {
        for j in 0..items.len() {
            if i != j {
                assert_ne!(items[i].id, items[j].id);
            }
        }
    }
}

#[test]
fn despawn_of_absent_id_is_a_noop() {
    let mut reg = Registry::new();
    spawn(&mut reg, EntityKind::Object, 0, 0, 0, 0);
    reg.despawn(99);
    assert_eq!(reg.count(), 1);
}

// --- movement and culling ------------------------------------------------

#[test]
fn bounds_culling_on_the_crossing_tick_and_not_before() {
    let mut reg = Registry::new();
    spawn(&mut reg, EntityKind::Enemy, 1185, 300, 10, 0);
    integrate(&mut reg);
    // moved to 1195: still inside the despawn margin
    assert_eq!(reg.count(), 1);
    assert_eq!(reg.iterate()[0].x, 1195);
    integrate(&mut reg);
    // moved to 1205 > 1200: culled on this very tick
    assert_eq!(reg.count(), 0);
}

#[test]
fn move_then_cull_ordering() {
    let mut reg = Registry::new();
    spawn(&mut reg, EntityKind::Enemy, 1190, 300, 15, 0);
    spawn(&mut reg, EntityKind::Enemy, 1190, 300, 5, 0);
    integrate(&mut reg);
    // the fast entity got its final frame of motion (to 1205) and was then
    // culled in the same pass; the slow one moved to 1195 and stays
    assert_eq!(reg.count(), 1);
    assert_eq!(reg.iterate()[0].x, 1195);
}

#[test]
fn culling_checks_every_margin() {
    let mut reg = Registry::new();
    spawn(&mut reg, EntityKind::Enemy, -195, 300, -10, 0);
    spawn(&mut reg, EntityKind::Enemy, 500, 795, 0, 10);
    spawn(&mut reg, EntityKind::Enemy, 500, -195, 0, -10);
    spawn(&mut reg, EntityKind::Enemy, 1200, 800, 0, 0);
    integrate(&mut reg);
    // the three movers crossed -200 / 800 / -200; the sitter is exactly on
    // the margin corner, which still counts as inside
    assert_eq!(reg.count(), 1);
    assert_eq!(reg.iterate()[0].x, 1200);
    assert_eq!(reg.iterate()[0].y, 800);
}

#[test]
fn entity_id_is_reused_after_culling() {
    let mut reg = Registry::new();
    spawn(&mut reg, EntityKind::Enemy, 1195, 300, 10, 0);
    integrate(&mut reg);
    assert_eq!(reg.count(), 0);
    assert_eq!(spawn(&mut reg, EntityKind::Enemy, 100, 100, 0, 0), 0);
}

// --- player kinematics ---------------------------------------------------

#[test]
fn player_drag_strictly_decreases_and_reaches_zero() {
    let mut p = plain_entity(EntityKind::Player, 500, 300, 5, -3);
    let idle = InputState::idle();
    let mut last_x: i32 = 5;
    let mut last_y: i32 = 3;
    for _ in 0..5 {
        player_update(&mut p, idle);
        assert!(p.vx.abs() <= last_x);
        assert!(p.vy.abs() <= last_y);
        if last_x > 0 {
            assert!(p.vx.abs() < last_x);
        }
        if last_y > 0 {
            assert!(p.vy.abs() < last_y);
        }
        last_x = p.vx.abs();
        last_y = p.vy.abs();
    }
    assert_eq!(p.vx, 0);
    assert_eq!(p.vy, 0);
}

#[test]
fn player_drag_exact_first_step() {
    // drag is 13/100 of the speed, at least one unit: 5 drops to 4
    let mut p = plain_entity(EntityKind::Player, 500, 300, 5, 0);
    player_update(&mut p, InputState::idle());
    assert_eq!(p.vx, 4);
    // the move used the pre-drag speed
    assert_eq!(p.x, 505);
}

#[test]
fn player_thrust_is_clamped_to_top_speed() {
    let mut p = plain_entity(EntityKind::Player, 500, 300, 3, 0);
    let inp = InputState { up: false, down: false, left: false, right: true, fire: false };
    player_update(&mut p, inp);
    // 3 + 5 = 8 clamps to the top speed 5, moves by 5, then drag takes one
    assert_eq!(p.x, 505);
    assert_eq!(p.vx, 4);
}

#[test]
fn player_does_not_move_from_the_edge() {
    // 0 is not strictly inside, so the x move is gated off
    let mut p = plain_entity(EntityKind::Player, 0, 300, -5, 0);
    player_update(&mut p, InputState::idle());
    assert_eq!(p.x, 0);
}

#[test]
fn player_clamp_pushes_back_and_stops() {
    let mut p = plain_entity(EntityKind::Player, 1003, 300, 4, 0);
    clamp_player(&mut p);
    assert_eq!(p.x, 998);
    assert_eq!(p.vx, 0);
    let mut q = plain_entity(EntityKind::Player, 500, -2, 0, -4);
    clamp_player(&mut q);
    assert_eq!(q.y, 3);
    assert_eq!(q.vy, 0);
}

#[test]
fn patterns_move_by_the_x_speed() {
    let mut e = plain_entity(EntityKind::Enemy, 10, 20, 4, 0);
    apply_pattern(MovePattern::LeftToRight, &mut e);
    assert_eq!(e.x, 14);
    apply_pattern(MovePattern::RightToLeft, &mut e);
    assert_eq!(e.x, 10);
    apply_pattern(MovePattern::Stationary, &mut e);
    assert_eq!(e.x, 10);
    assert_eq!(e.y, 20);
}

// --- entity model --------------------------------------------------------

#[test]
fn damage_subtracts_and_signals_destruction() {
    let mut e = plain_entity(EntityKind::Enemy, 0, 0, 0, 0);
    assert!(!e.damage(3));
    assert_eq!(e.health, 2);
    assert!(e.damage(2));
    assert_eq!(e.health, 0);
}

#[test]
fn move_x_and_move_y_translate_the_center() {
    let mut e = plain_entity(EntityKind::Enemy, 7, -2, 0, 0);
    e.move_x(5);
    e.move_y(-3);
    assert_eq!(e.x, 12);
    assert_eq!(e.y, -5);
    e.move_by(-2, 10);
    assert_eq!(e.x, 10);
    assert_eq!(e.y, 5);
}

// --- collision policy ----------------------------------------------------

#[test]
fn kind_table_is_complete_and_symmetric() {
    let kinds = [
        EntityKind::Player,
        EntityKind::PlayerProjectile,
        EntityKind::Enemy,
        EntityKind::EnemyProjectile,
        EntityKind::Object,
        EntityKind::Effect,
    ];
    let expected: [[bool; 6]; 6] = [
        [false, false, true, true, true, true],
        [false, false, true, false, true, false],
        [true, true, false, false, false, false],
        [true, false, false, false, false, false],
        [true, true, false, false, false, false],
        [true, false, false, false, false, false],
    ];
    for i in 0..6 {
        for j in 0..6 {
            assert_eq!(kind_pair_collides(kinds[i], kinds[j]), expected[i][j]);
            assert_eq!(
                kind_pair_collides(kinds[i], kinds[j]),
                kind_pair_collides(kinds[j], kinds[i])
            );
        }
    }
}

#[test]
fn pair_test_is_order_independent() {
    let a = plain_entity(EntityKind::Player, 100, 100, 0, 0);
    let b = plain_entity(EntityKind::Enemy, 140, 100, 0, 0);
    assert!(entities_collide(&a, &b));
    assert!(entities_collide(&b, &a));
}

#[test]
fn overlap_respects_the_bounding_boxes() {
    let a = plain_entity(EntityKind::Player, 100, 100, 0, 0);
    // radii 30 + 30: contact up to distance 60, apart beyond it
    let touching = plain_entity(EntityKind::Enemy, 160, 100, 0, 0);
    let apart = plain_entity(EntityKind::Enemy, 161, 100, 0, 0);
    assert!(entities_collide(&a, &touching));
    assert!(!entities_collide(&a, &apart));
}

#[test]
fn intangible_entities_are_exempt() {
    let a = plain_entity(EntityKind::Player, 100, 100, 0, 0);
    let mut b = plain_entity(EntityKind::Enemy, 110, 100, 0, 0);
    b.is_tangible = false;
    assert!(!entities_collide(&a, &b));
}

// --- collision sweep -----------------------------------------------------

#[test]
fn sweep_damages_enemy_and_spends_projectile() {
    let mut reg = Registry::new();
    let enemy = spawn(&mut reg, EntityKind::Enemy, 110, 100, 0, 0);
    let shot = reg.create_entity(
        EntityKind::PlayerProjectile,
        WeaponKind::Unarmed,
        MovePattern::Stationary,
        1,
        0,
        100,
        100,
        0,
        -5,
        5,
        1,
        20,
    );
    collision_sweep(&mut reg);
    // the enemy took the projectile's contact damage; the projectile spent
    // its single punch-through and is gone
    assert_eq!(reg.count(), 1);
    assert_eq!(reg.iterate()[0].id, enemy);
    assert_eq!(reg.iterate()[0].health, 4);
    assert!(!reg.contains_id(shot));
}

#[test]
fn sweep_removes_entity_whose_health_is_spent() {
    let mut reg = Registry::new();
    spawn(&mut reg, EntityKind::Enemy, 110, 100, 0, 0);
    reg.entities[0].health = 1;
    reg.create_entity(
        EntityKind::PlayerProjectile,
        WeaponKind::Unarmed,
        MovePattern::Stationary,
        1,
        0,
        100,
        100,
        0,
        -5,
        5,
        3,
        20,
    );
    collision_sweep(&mut reg);
    // the enemy dropped to zero health and was removed; the projectile kept
    // two of its three punch-through hits
    assert_eq!(reg.count(), 1);
    assert_eq!(reg.iterate()[0].kind, EntityKind::PlayerProjectile);
    assert_eq!(reg.iterate()[0].punch_through, 2);
}

#[test]
fn sweep_has_no_friendly_fire() {
    let mut reg = Registry::new();
    spawn(&mut reg, EntityKind::Enemy, 110, 100, 0, 0);
    reg.create_entity(
        EntityKind::EnemyProjectile,
        WeaponKind::Unarmed,
        MovePattern::Stationary,
        1,
        0,
        100,
        100,
        0,
        5,
        5,
        1,
        20,
    );
    collision_sweep(&mut reg);
    assert_eq!(reg.count(), 2);
    assert_eq!(reg.iterate()[0].health, 5);
    assert_eq!(reg.iterate()[1].punch_through, 1);
}

#[test]
fn sweep_charges_every_pair_once() {
    let mut reg = Registry::new();
    // three mutually overlapping objects and one player: each object takes
    // exactly one unit from the player and nothing from the other objects
    spawn(&mut reg, EntityKind::Object, 100, 100, 0, 0);
    spawn(&mut reg, EntityKind::Object, 110, 100, 0, 0);
    spawn(&mut reg, EntityKind::Object, 120, 100, 0, 0);
    spawn(&mut reg, EntityKind::Player, 110, 110, 0, 0);
    collision_sweep(&mut reg);
    assert_eq!(reg.count(), 4);
    for i in 0..3 {
        assert_eq!(reg.iterate()[i].health, 4);
    }
    // the player met all three objects
    assert_eq!(reg.iterate()[3].health, 2);
}

// --- spawn director ------------------------------------------------------

#[test]
fn wave_spawns_exactly_on_the_tenth_call() {
    let mut st = GameState::new();
    for i in 1..10 {
        st.spawn_cycle(1000);
        assert_eq!(st.registry.count(), 0);
        assert_eq!(st.wave_timer_ms, 1000 * i);
    }
    st.spawn_cycle(1000);
    assert_eq!(st.registry.count(), 5);
    assert_eq!(st.wave_timer_ms, 0);
}

#[test]
fn wave_enemies_are_spawned_at_the_spawn_point() {
    let mut st = GameState::new();
    st.spawn_cycle(10000);
    assert_eq!(st.registry.count(), 5);
    let items = st.registry.iterate();
    for i in 0..5 {
        assert_eq!(items[i].kind, EntityKind::Enemy);
        assert_eq!(items[i].health, 5);
        assert_eq!(items[i].x, 100);
        assert_eq!(items[i].y, 100);
        assert_eq!(items[i].vx, 0);
        assert_eq!(items[i].vy, 0);
        assert_eq!(items[i].id, i as u32);
    }
    // patterns cycle through the pattern list
    assert_eq!(items[0].pattern, MovePattern::LeftToRight);
    assert_eq!(items[1].pattern, MovePattern::RightToLeft);
    assert_eq!(items[2].pattern, MovePattern::LeftToRight);
}

#[test]
fn bullet_spawns_at_the_firer_and_flies_up() {
    let mut st = GameState::new();
    let firer = plain_entity(EntityKind::Player, 200, 150, 0, 0);
    let mut armed = firer;
    armed.weapon = WeaponKind::PlayerBasic;
    st.bullet(armed, 2);
    assert_eq!(st.registry.count(), 1);
    let shot = st.registry.iterate()[0];
    assert_eq!(shot.kind, EntityKind::PlayerProjectile);
    assert_eq!(shot.x, 200);
    assert_eq!(shot.y, 150);
    assert_eq!(shot.vx, 0);
    assert_eq!(shot.vy, -5);
    assert_eq!(shot.punch_through, 2);
}

#[test]
fn bullet_of_an_unarmed_entity_is_a_noop() {
    let mut st = GameState::new();
    let firer = plain_entity(EntityKind::Enemy, 200, 150, 0, 0);
    st.bullet(firer, 1);
    assert_eq!(st.registry.count(), 0);
}

#[test]
fn fire_is_rate_limited() {
    let mut st = GameState::new();
    st.fire_weapon(1);
    assert_eq!(st.registry.count(), 1);
    assert_eq!(st.fire_cooldown_ms, 200);
    // a second pull inside the cooldown window fires nothing
    st.fire_weapon(1);
    assert_eq!(st.registry.count(), 1);
}

// --- whole ticks ---------------------------------------------------------

#[test]
fn tick_fires_moves_and_cools_down() {
    let mut st = GameState::new();
    let fire = InputState { up: false, down: false, left: false, right: false, fire: true };
    st.tick(fire, 4);
    // the shot left the player's position and already moved up once
    assert_eq!(st.registry.count(), 1);
    assert_eq!(st.registry.iterate()[0].x, 40);
    assert_eq!(st.registry.iterate()[0].y, 25);
    assert_eq!(st.fire_cooldown_ms, 200);
    st.tick(fire, 4);
    // still cooling down: no second shot, the first kept moving
    assert_eq!(st.registry.count(), 1);
    assert_eq!(st.registry.iterate()[0].y, 20);
    assert_eq!(st.fire_cooldown_ms, 196);
}

#[test]
fn tick_advances_the_wave_timer() {
    let mut st = GameState::new();
    let idle = InputState::idle();
    st.tick(idle, 9999);
    assert_eq!(st.registry.count(), 0);
    assert_eq!(st.wave_timer_ms, 9999);
    st.tick(idle, 1);
    assert_eq!(st.registry.count(), 5);
    assert_eq!(st.wave_timer_ms, 0);
}

#[test]
fn frame_pacing_consumes_the_interval() {
    let mut st = GameState::new();
    assert!(!st.frame_due(2));
    assert!(st.frame_due(2));
    assert!(!st.frame_due(3));
    assert_eq!(st.score(), 0);
}
