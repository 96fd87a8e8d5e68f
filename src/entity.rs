//! Entities, their roles and the game's configuration constants.

use vstd::prelude::*;

use crate::geometry::{AABB, ROTATION_ONE, Rotation, Transform, Vec2};
use crate::movement::Movement;
use crate::timer::{Lifetime, NANOS_PER_SECOND, Timer, TimerMode};

verus! {

/// Fixed-point units per pixel.
pub const UNIT: i64 = 1000;

/// Half the width of the play field.
pub const FIELD_HALF_WIDTH: i64 = 256000;

/// Half the height of the play field.
pub const FIELD_HALF_HEIGHT: i64 = 192000;

/// Duration of one simulation tick: a sixtieth of a second.
pub const TICK_NANOS: u64 = 16666667;

/// Acceleration the player gets from a pressed direction.
pub const PLAYER_ACCELERATION: i64 = 1000;

/// Horizontal speed of a bullet.
pub const BULLET_SPEED: i64 = 3000;

/// Speed limit of a bullet.
pub const BULLET_MAX_SPEED: i64 = 10000;

/// Half-extent of a bullet's square box.
pub const BULLET_HALF_SIZE: i64 = 1000;

pub const BULLET_LIFETIME_SECONDS: u64 = 5;

pub const ENEMY_LIFETIME_SECONDS: u64 = 5;

pub const MIRROR_LIFETIME_SECONDS: u64 = 10;

/// Width of the play field, the range of a spawn draw.
pub const FIELD_WIDTH: u64 = 512000;

/// Enemies spawn within this percentage of the field width around its centre.
pub const SPAWN_SPREAD_PERCENT: i64 = 95;

/// Half-extents of a mirror.
pub const MIRROR_HALF_WIDTH: i64 = 8000;

pub const MIRROR_HALF_HEIGHT: i64 = 1000;

/// Upward speed of a mirror, which is also its speed limit.
pub const MIRROR_SPEED: i64 = 1000;

/// Cosine (and sine) of an eighth of a turn, 45 degrees, scaled by `ROTATION_ONE`.
pub const DIAGONAL: i64 = 46341;

/// Half-extent of the square boxes of the player and of enemies.
pub const SHIP_HALF_SIZE: i64 = 16000;

/// Height at which the player starts: two box-heights above the bottom edge.
pub const PLAYER_START_Y: i64 = -160000;

pub const PLAYER_MAX_SPEED: i64 = 2000;

/// The player loses a tenth of its velocity on a tick without input.
pub const PLAYER_DAMPING: i64 = 100;

/// Downward acceleration of enemies.
pub const ENEMY_ACCELERATION: i64 = -100;

pub const ENEMY_MAX_SPEED: i64 = 10000;

/// Interval and initial falling speed of the slower enemy spawner.
pub const SLOW_SPAWN_INTERVAL: u64 = 1500000000;

pub const SLOW_ENEMY_SPEED: i64 = 500;

/// Distance of a mirror spawner from the side and bottom edges of the field.
pub const MIRROR_SPAWNER_INSET: i64 = 10000;

/// Role of an entity, which decides the systems that act on it.
#[derive(Clone, Copy, Debug, PartialEq, Eq, Structural)]
pub enum Kind {
    Player,
    Enemy,
    Bullet,
    Mirror,
}

/// One simulated entity with all its components.
#[derive(Clone, Copy, Debug, PartialEq, Eq, Structural)]
pub struct Entity {
    pub kind: Kind,
    pub transform: Transform,
    pub movement: Movement,
    pub aabb: AABB,
    pub lifetime: Option<Lifetime>,
    /// Destroyed once its box lies wholly outside the play field.
    pub auto_despawn: bool,
    /// Which look of its kind the renderer gives it; the simulation never reads it.
    pub visual: u32,
}

impl Entity {
    pub open spec fn wf(self) -> bool {
        &&& self.movement.wf()
        &&& self.aabb.wf()
        &&& self.transform.rotation.wf()
        &&& (self.kind == Kind::Player ==> self.aabb.half_size.x <= FIELD_HALF_WIDTH
            && self.aabb.half_size.y <= FIELD_HALF_HEIGHT)
    }

    pub fn is_wf(&self) -> (r: bool)
        ensures
            r == self.wf(),
    {
        self.movement.is_wf() && self.aabb.is_wf() && self.transform.rotation.is_wf() && (
        self.kind != Kind::Player || (self.aabb.half_size.x <= FIELD_HALF_WIDTH
            && self.aabb.half_size.y <= FIELD_HALF_HEIGHT))
    }
}

/// Per-tick input: direction intents (negative, zero or positive on each
/// axis) and whether fire is held.
#[derive(Clone, Copy, Debug, PartialEq, Eq, Structural)]
pub struct Input {
    pub horizontal: i8,
    pub vertical: i8,
    pub fire: bool,
}

/// Side of the player a bullet leaves from.
#[derive(Clone, Copy, Debug, PartialEq, Eq, Structural)]
pub enum Direction {
    Left,
    Right,
}

pub open spec fn direction_sign(d: Direction) -> int {
    match d {
        Direction::Left => -1,
        Direction::Right => 1,
    }
}

/// Makes enemies at the top of the field at a regular interval.
#[derive(Clone, Copy, Debug, PartialEq, Eq, Structural)]
pub struct EnemySpawner {
    pub timer: Timer,
    pub movement: Movement,
    pub aabb: AABB,
    /// Visual tag given to the enemies it makes.
    pub visual: u32,
}

/// Makes rotated mirrors at a fixed place at a regular interval.
#[derive(Clone, Copy, Debug, PartialEq, Eq, Structural)]
pub struct MirrorSpawner {
    pub timer: Timer,
    pub angle: Rotation,
    pub position: Vec2,
}

pub open spec fn enemy_spawner_wf(s: EnemySpawner) -> bool {
    s.movement.wf() && s.aabb.wf()
}

pub open spec fn all_wf(s: Seq<Entity>) -> bool {
    forall|i: int| 0 <= i < s.len() ==> #[trigger] s[i].wf()
}

pub open spec fn fresh_lifetime(seconds: u64) -> Lifetime {
    Lifetime {
        timer: Timer {
            duration: (seconds * NANOS_PER_SECOND) as u64,
            elapsed: 0,
            mode: TimerMode::Once,
            finished: false,
        },
    }
}

pub open spec fn unrotated(x: int, y: int) -> Transform {
    Transform {
        translation: Vec2 { x: x as i64, y: y as i64 },
        rotation: Rotation { cos: ROTATION_ONE, sin: 0 },
    }
}

} // verus!
