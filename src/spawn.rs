//! Making new entities: bullets fired by players, and enemies and
//! mirrors made by timer-driven spawners.

use vstd::prelude::*;

use crate::geometry::{AABB, Rotation, Transform, Vec2};
use crate::movement::{Movement, lemma_trunc_div_bound, saturate, saturated, trunc_div};
use crate::timer::{Lifetime, NANOS_PER_SECOND, Timer, TimerMode, ticked};
use crate::entity::{BULLET_HALF_SIZE, BULLET_LIFETIME_SECONDS, BULLET_MAX_SPEED, BULLET_SPEED, DIAGONAL, Direction, ENEMY_ACCELERATION, ENEMY_LIFETIME_SECONDS, ENEMY_MAX_SPEED, EnemySpawner, Entity, FIELD_HALF_HEIGHT, FIELD_HALF_WIDTH, FIELD_WIDTH, Kind, MIRROR_HALF_HEIGHT, MIRROR_HALF_WIDTH, MIRROR_LIFETIME_SECONDS, MIRROR_SPAWNER_INSET, MIRROR_SPEED, MirrorSpawner, SHIP_HALF_SIZE, SPAWN_SPREAD_PERCENT, TICK_NANOS, all_wf, direction_sign, enemy_spawner_wf, fresh_lifetime, unrotated};
use crate::world::World;

verus! {

/// The bullet that leaves a ship with transform `t` and box `a` on side `d`.
pub open spec fn bullet_from(t: Transform, a: AABB, d: Direction) -> Entity {
    Entity {
        kind: Kind::Bullet,
        transform: unrotated(
            saturated(t.translation.x + a.half_size.x * direction_sign(d)),
            t.translation.y as int,
        ),
        movement: Movement {
            acceleration: Vec2 { x: 0, y: 0 },
            velocity: Vec2 { x: (direction_sign(d) * BULLET_SPEED) as i64, y: 0 },
            damping: 0,
            max_speed: BULLET_MAX_SPEED,
        },
        aabb: AABB { half_size: Vec2 { x: BULLET_HALF_SIZE, y: BULLET_HALF_SIZE } },
        lifetime: Some(fresh_lifetime(BULLET_LIFETIME_SECONDS)),
        auto_despawn: true,
        visual: 0,
    }
}

/// The bullets fired by the players among `s`: a left and a right one for
/// each player, in the players' order.
pub open spec fn volley(s: Seq<Entity>) -> Seq<Entity>
    decreases s.len(),
{
    if s.len() == 0 {
        seq![]
    } else {
        let p = volley(s.drop_last());
        let e = s.last();
        if e.kind == Kind::Player {
            p.push(bullet_from(e.transform, e.aabb, Direction::Left)).push(
                bullet_from(e.transform, e.aabb, Direction::Right),
            )
        } else {
            p
        }
    }
}

pub open spec fn after_shot(s: Seq<Entity>, fire: bool) -> Seq<Entity> {
    if fire {
        s + volley(s)
    } else {
        s
    }
}

/// Horizontal position of an enemy for a draw taken from `0..FIELD_WIDTH`.
pub open spec fn spawn_x(draw: u64) -> int {
    trunc_div((draw - FIELD_HALF_WIDTH) * SPAWN_SPREAD_PERCENT, 100)
}

/// The enemy that spawner `sp` makes for the draw `draw`.
pub open spec fn enemy_from(sp: EnemySpawner, draw: u64) -> Entity {
    Entity {
        kind: Kind::Enemy,
        transform: unrotated(spawn_x(draw), FIELD_HALF_HEIGHT + sp.aabb.half_size.y),
        movement: sp.movement,
        aabb: sp.aabb,
        lifetime: Some(fresh_lifetime(ENEMY_LIFETIME_SECONDS)),
        auto_despawn: false,
        visual: sp.visual,
    }
}

pub open spec fn enemy_spawner_ticked(sp: EnemySpawner) -> EnemySpawner {
    EnemySpawner { timer: ticked(sp.timer, TICK_NANOS), ..sp }
}

/// The enemies made in one tick by the spawners `sp`, the `k`-th spawner
/// using the draw `draws[k]`.
pub open spec fn enemy_wave(sp: Seq<EnemySpawner>, draws: Seq<u64>) -> Seq<Entity>
    decreases sp.len(),
{
    if sp.len() == 0 {
        seq![]
    } else {
        let p = enemy_wave(sp.drop_last(), draws);
        let k = sp.len() - 1;
        if ticked(sp[k].timer, TICK_NANOS).finished {
            p.push(enemy_from(sp[k], draws[k]))
        } else {
            p
        }
    }
}

/// The mirror that spawner `sp` makes.
pub open spec fn mirror_from(sp: MirrorSpawner) -> Entity {
    Entity {
        kind: Kind::Mirror,
        transform: Transform { translation: sp.position, rotation: sp.angle },
        movement: Movement {
            acceleration: Vec2 { x: 0, y: 0 },
            velocity: Vec2 { x: 0, y: MIRROR_SPEED },
            damping: 0,
            max_speed: MIRROR_SPEED,
        },
        aabb: AABB { half_size: Vec2 { x: MIRROR_HALF_WIDTH, y: MIRROR_HALF_HEIGHT } },
        lifetime: Some(fresh_lifetime(MIRROR_LIFETIME_SECONDS)),
        auto_despawn: false,
        visual: 0,
    }
}

pub open spec fn mirror_spawner_ticked(sp: MirrorSpawner) -> MirrorSpawner {
    MirrorSpawner { timer: ticked(sp.timer, TICK_NANOS), ..sp }
}

/// The mirrors made in one tick by the spawners `sp`.
pub open spec fn mirror_wave(sp: Seq<MirrorSpawner>) -> Seq<Entity>
    decreases sp.len(),
{
    if sp.len() == 0 {
        seq![]
    } else {
        let p = mirror_wave(sp.drop_last());
        let k = sp.len() - 1;
        if ticked(sp[k].timer, TICK_NANOS).finished {
            p.push(mirror_from(sp[k]))
        } else {
            p
        }
    }
}

pub open spec fn draws_in_range(draws: Seq<u64>) -> bool {
    forall|k: int| 0 <= k < draws.len() ==> #[trigger] draws[k] < FIELD_WIDTH
}

/// The bullet leaving a ship with transform `transform` and box `aabb` on the
/// side `direction`, at the ship's edge, flying outward.
pub fn spawn_bullet(transform: &Transform, aabb: &AABB, direction: Direction) -> (r: Entity)
    requires
        aabb.wf(),
    ensures
        r == bullet_from(*transform, *aabb, direction),
        r.wf(),
{
    let sign: i64 = match direction {
        Direction::Left => -1,
        Direction::Right => 1,
    };
    let x = saturate(transform.translation.x as i128 + (aabb.half_size.x * sign) as i128);
    Entity {
        kind: Kind::Bullet,
        transform: Transform::from_xy(x, transform.translation.y),
        movement: Movement {
            acceleration: Vec2::zero(),
            velocity: Vec2::new(sign * BULLET_SPEED, 0),
            damping: 0,
            max_speed: BULLET_MAX_SPEED,
        },
        aabb: AABB { half_size: Vec2::new(BULLET_HALF_SIZE, BULLET_HALF_SIZE) },
        lifetime: Some(Lifetime::from_seconds(BULLET_LIFETIME_SECONDS)),
        auto_despawn: true,
        visual: 0,
    }
}

/// Horizontal position of a new enemy for a draw taken from `0..FIELD_WIDTH`:
/// the draw spread over the field's width around its centre and pulled in
/// toward the centre so that enemies keep off the very edge.
pub fn enemy_spawn_x(draw: u64) -> (r: i64)
    requires
        draw < FIELD_WIDTH,
    ensures
        r == spawn_x(draw),
        -FIELD_HALF_WIDTH <= r < FIELD_HALF_WIDTH,
{
    let centred = draw as i64 - FIELD_HALF_WIDTH;
    let scaled = centred * SPAWN_SPREAD_PERCENT;
    proof {
        crate::movement::lemma_trunc_div_bound(scaled as int, 100);
    }
    if scaled >= 0 {
        scaled / 100
    } else {
        -((-scaled) / 100)
    }
}

/// The enemy that the spawner makes for a draw from `0..FIELD_WIDTH`: at the
/// top edge of the field, with the spawner's movement and box.
pub fn spawn_enemy(spawner: &EnemySpawner, draw: u64) -> (r: Entity)
    requires
        draw < FIELD_WIDTH,
        enemy_spawner_wf(*spawner),
    ensures
        r == enemy_from(*spawner, draw),
        r.wf(),
{
    let x = enemy_spawn_x(draw);
    Entity {
        kind: Kind::Enemy,
        transform: Transform::from_xy(x, FIELD_HALF_HEIGHT + spawner.aabb.half_size.y),
        movement: spawner.movement,
        aabb: spawner.aabb,
        lifetime: Some(Lifetime::from_seconds(ENEMY_LIFETIME_SECONDS)),
        auto_despawn: false,
        visual: spawner.visual,
    }
}

/// The mirror that the spawner makes: at the spawner's place and angle,
/// drifting slowly upward.
pub fn spawn_mirror(spawner: &MirrorSpawner) -> (r: Entity)
    requires
        spawner.angle.wf(),
    ensures
        r == mirror_from(*spawner),
        r.wf(),
{
    Entity {
        kind: Kind::Mirror,
        transform: Transform { translation: spawner.position, rotation: spawner.angle },
        movement: Movement {
            acceleration: Vec2::zero(),
            velocity: Vec2::new(0, MIRROR_SPEED),
            damping: 0,
            max_speed: MIRROR_SPEED,
        },
        aabb: AABB { half_size: Vec2::new(MIRROR_HALF_WIDTH, MIRROR_HALF_HEIGHT) },
        lifetime: Some(Lifetime::from_seconds(MIRROR_LIFETIME_SECONDS)),
        auto_despawn: false,
        visual: 0,
    }
}

/// An enemy spawner running every `interval` nanoseconds whose enemies start
/// falling at `speed`.
pub open spec fn enemy_spawner_of(interval: u64, speed: i64, visual: u32) -> EnemySpawner {
    EnemySpawner {
        timer: Timer { duration: interval, elapsed: 0, mode: TimerMode::Repeating, finished: false },
        movement: Movement {
            acceleration: Vec2 { x: 0, y: ENEMY_ACCELERATION },
            velocity: Vec2 { x: 0, y: (-speed) as i64 },
            damping: 0,
            max_speed: ENEMY_MAX_SPEED,
        },
        aabb: AABB { half_size: Vec2 { x: SHIP_HALF_SIZE, y: SHIP_HALF_SIZE } },
        visual,
    }
}

/// The mirror spawner in the bottom corner on side `d`, its mirrors turned
/// 45 degrees: clockwise on the left, counter-clockwise on the right.
pub open spec fn mirror_spawner_of(d: Direction) -> MirrorSpawner {
    MirrorSpawner {
        timer: Timer {
            duration: NANOS_PER_SECOND,
            elapsed: 0,
            mode: TimerMode::Repeating,
            finished: false,
        },
        angle: Rotation { cos: DIAGONAL, sin: (direction_sign(d) * DIAGONAL) as i64 },
        position: Vec2 {
            x: (direction_sign(d) * (FIELD_HALF_WIDTH - MIRROR_SPAWNER_INSET)) as i64,
            y: (-FIELD_HALF_HEIGHT - MIRROR_SPAWNER_INSET) as i64,
        },
    }
}

/// The mirror spawner for side `direction`.
pub fn spawn_mirror_spawner(direction: Direction) -> (r: MirrorSpawner)
    ensures
        r == mirror_spawner_of(direction),
        r.angle.wf(),
{
    let (sin, x) = match direction {
        Direction::Left => (-DIAGONAL, -(FIELD_HALF_WIDTH - MIRROR_SPAWNER_INSET)),
        Direction::Right => (DIAGONAL, FIELD_HALF_WIDTH - MIRROR_SPAWNER_INSET),
    };
    MirrorSpawner {
        timer: Timer::new(NANOS_PER_SECOND, TimerMode::Repeating),
        angle: Rotation { cos: DIAGONAL, sin },
        position: Vec2::new(x, -FIELD_HALF_HEIGHT - MIRROR_SPAWNER_INSET),
    }
}

pub(crate) fn enemy_spawner(interval: u64, speed: i64, visual: u32) -> (r: EnemySpawner)
    requires
        0 <= speed <= ENEMY_MAX_SPEED,
    ensures
        r == enemy_spawner_of(interval, speed, visual),
        enemy_spawner_wf(r),
{
    EnemySpawner {
        timer: Timer::new(interval, TimerMode::Repeating),
        movement: Movement {
            acceleration: Vec2::new(0, ENEMY_ACCELERATION),
            velocity: Vec2::new(0, -speed),
            damping: 0,
            max_speed: ENEMY_MAX_SPEED,
        },
        aabb: AABB { half_size: Vec2::new(SHIP_HALF_SIZE, SHIP_HALF_SIZE) },
        visual,
    }
}

impl World {
    /// While fire is held, every player fires a bullet to each side.
    pub fn shoot(&mut self, fire: bool)
        requires
            old(self)@.wf(),
        ensures
            final(self)@.wf(),
            final(self)@.entities == after_shot(old(self)@.entities, fire),
            final(self)@.enemy_spawners == old(self)@.enemy_spawners,
            final(self)@.mirror_spawners == old(self)@.mirror_spawners,
            final(self)@.score == old(self)@.score,
    {
        if !fire {
            return;
        }
        let n = self.entities.len();
        let ghost s = self.entities@;
        let mut i: usize = 0;
        while i < n
            invariant
                0 <= i <= n,
                n == s.len(),
                s == old(self)@.entities,
                self.entities@ == s + volley(s.take(i as int)),
                self.enemy_spawners@ == old(self)@.enemy_spawners,
                self.mirror_spawners@ == old(self)@.mirror_spawners,
                self.score == old(self).score,
                old(self)@.wf(),
                all_wf(self.entities@),
            decreases n - i,
        {
            proof {
                assert(s.take(i + 1).drop_last() =~= s.take(i as int));
                assert(self.entities@[i as int] == s[i as int]);
            }
            let e = self.entities[i];
            assert(e.wf());
            if e.kind == Kind::Player {
                let left = spawn_bullet(&e.transform, &e.aabb, Direction::Left);
                let right = spawn_bullet(&e.transform, &e.aabb, Direction::Right);
                self.entities.push(left);
                self.entities.push(right);
            }
            i += 1;
            proof {
                assert(self.entities@ =~= s + volley(s.take(i as int)));
            }
        }
        assert(s.take(n as int) =~= s);
    }

    /// Advances the enemy spawners' timers; each one that runs out makes an
    /// enemy, the `k`-th spawner placing it by `draws[k]`.
    pub fn spawn_enemies(&mut self, draws: &Vec<u64>)
        requires
            old(self)@.wf(),
            draws@.len() == old(self)@.enemy_spawners.len(),
            draws_in_range(draws@),
        ensures
            final(self)@.wf(),
            final(self)@.entities == old(self)@.entities + enemy_wave(
                old(self)@.enemy_spawners,
                draws@,
            ),
            final(self)@.enemy_spawners == old(self)@.enemy_spawners.map_values(
                |sp: EnemySpawner| enemy_spawner_ticked(sp),
            ),
            final(self)@.mirror_spawners == old(self)@.mirror_spawners,
            final(self)@.score == old(self)@.score,
    {
        let n = self.enemy_spawners.len();
        let ghost sp = self.enemy_spawners@;
        let mut i: usize = 0;
        while i < n
            invariant
                0 <= i <= n,
                n == sp.len(),
                sp == old(self)@.enemy_spawners,
                draws@.len() == n,
                draws_in_range(draws@),
                self.enemy_spawners@.len() == n,
                forall|j: int|
                    0 <= j < i ==> self.enemy_spawners@[j] == enemy_spawner_ticked(sp[j]),
                forall|j: int| i <= j < n ==> self.enemy_spawners@[j] == sp[j],
                self.entities@ == old(self)@.entities + enemy_wave(sp.take(i as int), draws@),
                self.mirror_spawners@ == old(self)@.mirror_spawners,
                self.score == old(self).score,
                old(self)@.wf(),
                all_wf(self.entities@),
            decreases n - i,
        {
            proof {
                assert(sp.take(i + 1).drop_last() =~= sp.take(i as int));
            }
            let mut spawner = self.enemy_spawners[i];
            assert(enemy_spawner_wf(spawner));
            spawner.timer.tick(TICK_NANOS);
            if spawner.timer.finished() {
                let enemy = spawn_enemy(&spawner, draws[i]);
                self.entities.push(enemy);
            }
            self.enemy_spawners.set(i, spawner);
            i += 1;
            proof {
                assert(self.entities@ =~= old(self)@.entities + enemy_wave(
                    sp.take(i as int),
                    draws@,
                ));
            }
        }
        assert(sp.take(n as int) =~= sp);
        assert(self.enemy_spawners@ =~= sp.map_values(|sp: EnemySpawner| enemy_spawner_ticked(sp)));
        assert forall|j: int| 0 <= j < self.enemy_spawners@.len() implies enemy_spawner_wf(
            #[trigger] self.enemy_spawners@[j],
        ) by {
            assert(enemy_spawner_wf(sp[j]));
        }
    }

    /// Advances the mirror spawners' timers; each one that runs out makes a mirror.
    pub fn spawn_mirrors(&mut self)
        requires
            old(self)@.wf(),
        ensures
            final(self)@.wf(),
            final(self)@.entities == old(self)@.entities + mirror_wave(old(self)@.mirror_spawners),
            final(self)@.mirror_spawners == old(self)@.mirror_spawners.map_values(
                |sp: MirrorSpawner| mirror_spawner_ticked(sp),
            ),
            final(self)@.enemy_spawners == old(self)@.enemy_spawners,
            final(self)@.score == old(self)@.score,
    {
        let n = self.mirror_spawners.len();
        let ghost sp = self.mirror_spawners@;
        let mut i: usize = 0;
        while i < n
            invariant
                0 <= i <= n,
                n == sp.len(),
                sp == old(self)@.mirror_spawners,
                self.mirror_spawners@.len() == n,
                forall|j: int|
                    0 <= j < i ==> self.mirror_spawners@[j] == mirror_spawner_ticked(sp[j]),
                forall|j: int| i <= j < n ==> self.mirror_spawners@[j] == sp[j],
                self.entities@ == old(self)@.entities + mirror_wave(sp.take(i as int)),
                self.enemy_spawners@ == old(self)@.enemy_spawners,
                self.score == old(self).score,
                old(self)@.wf(),
                all_wf(self.entities@),
            decreases n - i,
        {
            proof {
                assert(sp.take(i + 1).drop_last() =~= sp.take(i as int));
            }
            let mut spawner = self.mirror_spawners[i];
            assert(spawner.angle.wf());
            spawner.timer.tick(TICK_NANOS);
            if spawner.timer.finished() {
                let mirror = spawn_mirror(&spawner);
                self.entities.push(mirror);
            }
            self.mirror_spawners.set(i, spawner);
            i += 1;
            proof {
                assert(self.entities@ =~= old(self)@.entities + mirror_wave(sp.take(i as int)));
            }
        }
        assert(sp.take(n as int) =~= sp);
        assert(self.mirror_spawners@ =~= sp.map_values(|sp: MirrorSpawner| mirror_spawner_ticked(sp)));
        assert forall|j: int| 0 <= j < self.mirror_spawners@.len() implies (
        #[trigger] self.mirror_spawners@[j]).angle.wf() by {
            assert(sp[j].angle.wf());
        }
    }
}

} // verus!
