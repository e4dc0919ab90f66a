use vstd::prelude::*;

use crate::config::{
    DAMAGE_LIMIT, HEALTH_LIMIT, POS_LIMIT, PUNCH_LIMIT, RADIUS_LIMIT, SPEED_LIMIT,
};

verus! {

/// Classification of a simulated object; decides which other kinds it may
/// collide with (see `crate::collision::kinds_collide`).
#[derive(Clone, Copy, Debug, PartialEq, Eq, Structural)]
pub enum EntityKind {
    /// The entity the player controls.
    Player,
    /// A projectile spawned by the player.
    PlayerProjectile,
    /// A non-player, non-projectile hostile.
    Enemy,
    /// A projectile spawned by an enemy.
    EnemyProjectile,
    /// Anything else that takes part in collisions.
    Object,
    /// A visual effect; never collides with projectiles.
    Effect,
}

/// The equipped weapon; decides what firing produces.
#[derive(Clone, Copy, Debug, PartialEq, Eq, Structural)]
pub enum WeaponKind {
    /// No weapon: firing is a no-op.
    Unarmed,
    /// The player's basic weapon: one projectile straight up.
    PlayerBasic,
}

/// Closed set of enemy movement patterns, dispatched through `apply_pattern`
/// instead of storing first-class function values.
#[derive(Clone, Copy, Debug, PartialEq, Eq, Structural)]
pub enum MovePattern {
    /// Drift from the left side of the screen to the right.
    LeftToRight,
    /// Drift from the right side of the screen to the left.
    RightToLeft,
    /// Stay perfectly still.
    Stationary,
}

/// The one mutable simulation unit: ship, projectile or enemy.
///
/// Positions and speeds are integer arena units; `model` is a handle into the
/// externally owned, shared, immutable model assets; `radius` is the bounding
/// half-extent (axis-aligned square box) the collision sweep tests.
#[derive(Clone, Copy, Debug, PartialEq, Eq, Structural)]
pub struct Entity {
    /// Identity within the live registry; unique among live entities.
    pub id: u32,
    /// Immutable after creation.
    pub kind: EntityKind,
    /// Immutable after creation; read by the fire logic.
    pub weapon: WeaponKind,
    /// Movement pattern assigned by the spawn director.
    pub pattern: MovePattern,
    /// Handle of the shared model asset this entity is drawn with.
    pub model: u32,
    /// Center position, x.
    pub x: i32,
    /// Center position, y.
    pub y: i32,
    /// Current speed, x.
    pub vx: i32,
    /// Current speed, y.
    pub vy: i32,
    /// Per-axis clamp on speed magnitude.
    pub top_speed: i32,
    /// The entity is destroyed when this drops to zero or below.
    pub health: i32,
    /// Damage dealt to a non-projectile this entity collides with.
    pub collision_damage: i32,
    /// When false, the entity is exempt from all collision checks.
    pub is_tangible: bool,
    /// Remaining hits before a projectile is destroyed; projectiles are
    /// exempt from receiving contact damage and despawn by this counter.
    pub punch_through: i32,
    /// Bounding half-extent used by the collision sweep.
    pub radius: i32,
}

/// True of the two projectile kinds.
pub open spec fn is_projectile_kind(k: EntityKind) -> bool {
    k == EntityKind::PlayerProjectile || k == EntityKind::EnemyProjectile
}

/// Executable twin of `is_projectile_kind`.
pub fn kind_is_projectile(k: EntityKind) -> (r: bool)
    ensures
        r == is_projectile_kind(k),
{
    match k {
        EntityKind::PlayerProjectile => true,
        EntityKind::EnemyProjectile => true,
        _ => false,
    }
}

impl Entity {
    /// Well-formedness: every numeric field stays within the documented world
    /// limits, so that per-tick arithmetic cannot overflow.
    pub open spec fn valid(self) -> bool {
        &&& -POS_LIMIT <= self.x <= POS_LIMIT
        &&& -POS_LIMIT <= self.y <= POS_LIMIT
        &&& -SPEED_LIMIT <= self.vx <= SPEED_LIMIT
        &&& -SPEED_LIMIT <= self.vy <= SPEED_LIMIT
        &&& 0 <= self.top_speed <= SPEED_LIMIT
        &&& -HEALTH_LIMIT <= self.health <= HEALTH_LIMIT
        &&& 0 <= self.collision_damage <= DAMAGE_LIMIT
        &&& 0 <= self.punch_through <= PUNCH_LIMIT
        &&& 0 <= self.radius <= RADIUS_LIMIT
    }

    /// Translate the entity's center along x; no other field changes.
    pub fn move_x(&mut self, d: i32)
        requires
            i32::MIN <= old(self).x + d <= i32::MAX,
        ensures
            *final(self) == (Entity { x: (old(self).x + d) as i32, ..*old(self) }),
    {
        self.x = self.x + d;
    }

    /// Translate the entity's center along y; no other field changes.
    pub fn move_y(&mut self, d: i32)
        requires
            i32::MIN <= old(self).y + d <= i32::MAX,
        ensures
            *final(self) == (Entity { y: (old(self).y + d) as i32, ..*old(self) }),
    {
        self.y = self.y + d;
    }

    /// Translate the entity's center by the given delta; no side effects
    /// beyond the position fields.
    pub fn move_by(&mut self, dx: i32, dy: i32)
        requires
            i32::MIN <= old(self).x + dx <= i32::MAX,
            i32::MIN <= old(self).y + dy <= i32::MAX,
        ensures
            *final(self) == (Entity {
                x: (old(self).x + dx) as i32,
                y: (old(self).y + dy) as i32,
                ..*old(self)
            }),
    {
        self.move_x(dx);
        self.move_y(dy);
    }

    /// Subtract `amount` from health and report whether the entity is now
    /// destroyed (health at or below zero). Removal is the registry's job.
    pub fn damage(&mut self, amount: i32) -> (destroyed: bool)
        requires
            i32::MIN <= old(self).health - amount <= i32::MAX,
        ensures
            *final(self) == (Entity {
                health: (old(self).health - amount) as i32,
                ..*old(self)
            }),
            destroyed == (final(self).health <= 0),
    {
        self.health = self.health - amount;
        self.health <= 0
    }
}

/// One pattern step of `e`: where `pattern_step` says the entity ends up.
pub open spec fn pattern_step(p: MovePattern, e: Entity) -> Entity {
    match p {
        MovePattern::LeftToRight => Entity { x: (e.x + e.vx) as i32, ..e },
        MovePattern::RightToLeft => Entity { x: (e.x - e.vx) as i32, ..e },
        MovePattern::Stationary => e,
    }
}

/// Drift rightward by the entity's x speed.
pub fn left_to_right(e: &mut Entity)
    requires
        old(e).valid(),
    ensures
        *final(e) == pattern_step(MovePattern::LeftToRight, *old(e)),
{
    let d = e.vx;
    e.move_x(d);
}

/// Drift leftward by the entity's x speed.
pub fn right_to_left(e: &mut Entity)
    requires
        old(e).valid(),
    ensures
        *final(e) == pattern_step(MovePattern::RightToLeft, *old(e)),
{
    let d = e.vx;
    e.move_x(-d);
}

/// Stay perfectly still.
pub fn stay_still(e: &mut Entity)
    ensures
        *final(e) == pattern_step(MovePattern::Stationary, *old(e)),
{
}

/// Data-driven dispatch over the closed pattern set.
pub fn apply_pattern(p: MovePattern, e: &mut Entity)
    requires
        old(e).valid(),
    ensures
        *final(e) == pattern_step(p, *old(e)),
{
    match p {
        MovePattern::LeftToRight => left_to_right(e),
        MovePattern::RightToLeft => right_to_left(e),
        MovePattern::Stationary => stay_still(e),
    }
}

} // verus!
