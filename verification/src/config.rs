use vstd::prelude::*;

verus! {

/// Right edge of the inner arena that bounds the player.
pub const ARENA_MAX_X: i32 = 1000;

/// Bottom edge of the inner arena that bounds the player.
pub const ARENA_MAX_Y: i32 = 600;

/// Entities whose x coordinate leaves [DESPAWN_MIN_X, DESPAWN_MAX_X] are culled.
pub const DESPAWN_MIN_X: i32 = -200;

/// See `DESPAWN_MIN_X`.
pub const DESPAWN_MAX_X: i32 = 1200;

/// Entities whose y coordinate leaves [DESPAWN_MIN_Y, DESPAWN_MAX_Y] are culled.
pub const DESPAWN_MIN_Y: i32 = -200;

/// See `DESPAWN_MIN_Y`.
pub const DESPAWN_MAX_Y: i32 = 800;

/// Speed added per held direction key per tick, before clamping to top speed.
pub const THRUST: i32 = 5;

/// Numerator of the per-tick drag fraction applied to the player's speed.
/// Each tick the speed loses DRAG_NUM/DRAG_DEN of itself (at least one unit,
/// so that a nonzero speed always reaches zero in finitely many ticks).
pub const DRAG_NUM: i32 = 13;

/// Denominator of the per-tick drag fraction. See `DRAG_NUM`.
pub const DRAG_DEN: i32 = 100;

/// Downward-axis speed of a freshly fired player projectile (it moves up).
pub const PROJECTILE_SPEED: i32 = 5;

/// Top speed recorded on a freshly fired player projectile.
pub const PROJECTILE_TOP_SPEED: i32 = 5;

/// Health recorded on a projectile; projectiles despawn by punch-through,
/// not by health.
pub const PROJECTILE_HEALTH: i32 = 1;

/// Bounding half-extent of a projectile, used by the collision sweep.
pub const PROJECTILE_RADIUS: i32 = 20;

/// Health of a wave-spawned enemy.
pub const ENEMY_HEALTH: i32 = 5;

/// Bounding half-extent of an enemy, used by the collision sweep.
pub const ENEMY_RADIUS: i32 = 30;

/// x coordinate of the fixed wave spawn point.
pub const ENEMY_SPAWN_X: i32 = 100;

/// y coordinate of the fixed wave spawn point.
pub const ENEMY_SPAWN_Y: i32 = 100;

/// The wave timer spawns a wave each time it accumulates this many milliseconds.
pub const WAVE_PERIOD_MS: u64 = 10000;

/// Number of enemies in one wave.
pub const WAVE_SIZE: usize = 5;

/// Minimum interval between two shots, in milliseconds. Tunable; firing is
/// rate-limited so holding the fire key does not emit one projectile per frame.
pub const FIRE_COOLDOWN_MS: u64 = 200;

/// Contact damage recorded on every entity the registry creates.
pub const CONTACT_DAMAGE: i32 = 1;

/// Punch-through given to the player's basic projectile.
pub const DEFAULT_PUNCH: i32 = 1;

/// Minimum interval between two simulation ticks, in milliseconds
/// (roughly a 240 Hz ceiling on the update rate).
pub const FRAME_INTERVAL_MS: u64 = 4;

/// Player start position, x.
pub const PLAYER_START_X: i32 = 40;

/// Player start position, y.
pub const PLAYER_START_Y: i32 = 30;

/// Player starting health.
pub const PLAYER_HEALTH: i32 = 1;

/// Per-axis clamp on the player's speed.
pub const PLAYER_TOP_SPEED: i32 = 5;

/// Bounding half-extent of the player, used by the collision sweep.
pub const PLAYER_RADIUS: i32 = 30;

/// Shared-model handle of the player / player-projectile geometry.
pub const MODEL_PLAYER: u32 = 0;

/// Shared-model handle of the enemy geometry.
pub const MODEL_ENEMY: u32 = 1;

/// Well-formed entities keep both position coordinates within this magnitude.
pub const POS_LIMIT: i32 = 1000000;

/// Well-formed entities keep speeds and top speeds within this magnitude.
pub const SPEED_LIMIT: i32 = 10000;

/// Well-formed entities keep health within this magnitude.
pub const HEALTH_LIMIT: i32 = 1000000;

/// Well-formed entities keep contact damage within 0..=DAMAGE_LIMIT.
pub const DAMAGE_LIMIT: i32 = 1000;

/// Well-formed entities keep punch-through within 0..=PUNCH_LIMIT.
pub const PUNCH_LIMIT: i32 = 1000000;

/// Well-formed entities keep their bounding half-extent within 0..=RADIUS_LIMIT.
pub const RADIUS_LIMIT: i32 = 10000;

/// The pairwise collision sweep is quadratic and is specified up to this many
/// live entities; the bound also keeps accumulated damage within range.
pub const SWEEP_CAP: usize = 1000000;

/// Largest frame delta, in milliseconds, that a single tick accepts.
pub const DT_LIMIT_MS: u64 = 1000000000;

} // verus!
