//! The entity registry and the tick that advances it.

use vstd::prelude::*;

use crate::geometry::{AABB, Transform, Vec2};
use crate::movement::{Movement, integrate, saturated, stepped_velocity};
use crate::random::random_below;
use crate::timer::{Lifetime, NANOS_PER_SECOND, ticked};
use crate::entity::{Direction, EnemySpawner, Entity, FIELD_HALF_HEIGHT, FIELD_HALF_WIDTH, FIELD_WIDTH, Input, Kind, MirrorSpawner, PLAYER_ACCELERATION, PLAYER_DAMPING, PLAYER_MAX_SPEED, PLAYER_START_Y, SHIP_HALF_SIZE, SLOW_ENEMY_SPEED, SLOW_SPAWN_INTERVAL, TICK_NANOS, UNIT, all_wf, enemy_spawner_wf, unrotated};
use crate::collision::{resolution, score_plus};
use crate::spawn::{after_shot, draws_in_range, enemy_spawner, enemy_spawner_of, enemy_spawner_ticked, enemy_wave, mirror_spawner_of, mirror_spawner_ticked, mirror_wave, spawn_mirror_spawner};

verus! {

/// What a world holds, as mathematical sequences.
pub struct WorldModel {
    pub entities: Seq<Entity>,
    pub enemy_spawners: Seq<EnemySpawner>,
    pub mirror_spawners: Seq<MirrorSpawner>,
    pub score: u64,
}

/// The entity registry and the counters of a running game.
pub struct World {
    pub entities: Vec<Entity>,
    pub enemy_spawners: Vec<EnemySpawner>,
    pub mirror_spawners: Vec<MirrorSpawner>,
    pub score: u64,
}

impl View for World {
    type V = WorldModel;

    open spec fn view(&self) -> WorldModel {
        WorldModel {
            entities: self.entities@,
            enemy_spawners: self.enemy_spawners@,
            mirror_spawners: self.mirror_spawners@,
            score: self.score,
        }
    }
}

impl WorldModel {
    pub open spec fn wf(self) -> bool {
        &&& all_wf(self.entities)
        &&& forall|i: int|
            0 <= i < self.enemy_spawners.len() ==> enemy_spawner_wf(
                #[trigger] self.enemy_spawners[i],
            )
        &&& forall|i: int|
            0 <= i < self.mirror_spawners.len() ==> (#[trigger] self.mirror_spawners[i]).angle.wf()
    }
}

pub open spec fn sign(v: i8) -> int {
    if v < 0 {
        -1
    } else if v > 0 {
        1
    } else {
        0
    }
}

/// A player takes its acceleration from the input; other entities are unchanged.
pub open spec fn with_intent(e: Entity, input: Input) -> Entity {
    if e.kind == Kind::Player {
        Entity {
            movement: Movement {
                acceleration: Vec2 {
                    x: (sign(input.horizontal) * PLAYER_ACCELERATION) as i64,
                    y: (sign(input.vertical) * PLAYER_ACCELERATION) as i64,
                },
                ..e.movement
            },
            ..e
        }
    } else {
        e
    }
}

/// An entity after one integrator step.
pub open spec fn moved(e: Entity) -> Entity {
    let v = stepped_velocity(e.movement);
    Entity {
        movement: Movement { velocity: Vec2 { x: v.0 as i64, y: v.1 as i64 }, ..e.movement },
        transform: Transform {
            translation: Vec2 {
                x: saturated(e.transform.translation.x + v.0) as i64,
                y: saturated(e.transform.translation.y + v.1) as i64,
            },
            ..e.transform
        },
        ..e
    }
}

pub open spec fn clamp_int(v: int, lo: int, hi: int) -> int {
    if v < lo {
        lo
    } else if v > hi {
        hi
    } else {
        v
    }
}

/// A player held inside the play field, its velocity cut on each axis where it
/// stands at the edge; other entities are unchanged.
pub open spec fn clamped(e: Entity) -> Entity {
    if e.kind == Kind::Player {
        let lo_x = -FIELD_HALF_WIDTH + e.aabb.half_size.x;
        let hi_x = FIELD_HALF_WIDTH - e.aabb.half_size.x;
        let lo_y = -FIELD_HALF_HEIGHT + e.aabb.half_size.y;
        let hi_y = FIELD_HALF_HEIGHT - e.aabb.half_size.y;
        let x = clamp_int(e.transform.translation.x as int, lo_x, hi_x);
        let y = clamp_int(e.transform.translation.y as int, lo_y, hi_y);
        let vx = if x <= lo_x || x >= hi_x {
            0
        } else {
            e.movement.velocity.x as int
        };
        let vy = if y <= lo_y || y >= hi_y {
            0
        } else {
            e.movement.velocity.y as int
        };
        Entity {
            transform: Transform { translation: Vec2 { x: x as i64, y: y as i64 }, ..e.transform },
            movement: Movement { velocity: Vec2 { x: vx as i64, y: vy as i64 }, ..e.movement },
            ..e
        }
    } else {
        e
    }
}

/// The entities of `s` whose mark in `dead` is not set, in their order.
pub open spec fn survivors(s: Seq<Entity>, dead: Seq<bool>) -> Seq<Entity>
    decreases s.len(),
{
    if s.len() == 0 {
        seq![]
    } else {
        let p = survivors(s.drop_last(), dead);
        if dead[s.len() - 1] {
            p
        } else {
            p.push(s.last())
        }
    }
}

pub(crate) proof fn lemma_survivors_wf(s: Seq<Entity>, dead: Seq<bool>)
    requires
        all_wf(s),
    ensures
        all_wf(survivors(s, dead)),
    decreases s.len(),
{
    if s.len() > 0 {
        assert(all_wf(s.drop_last()));
        lemma_survivors_wf(s.drop_last(), dead);
        assert(s.last().wf());
    }
}

/// An entity whose lifetime timer has advanced by one tick.
pub open spec fn lifetime_ticked(e: Entity) -> Entity {
    match e.lifetime {
        Some(l) => Entity { lifetime: Some(Lifetime { timer: ticked(l.timer, TICK_NANOS) }), ..e },
        None => e,
    }
}

/// The entity's lifetime has run out.
pub open spec fn expired(e: Entity) -> bool {
    match e.lifetime {
        Some(l) => l.timer.finished,
        None => false,
    }
}

pub open spec fn after_lifetimes(s: Seq<Entity>) -> Seq<Entity> {
    let t = s.map_values(|e: Entity| lifetime_ticked(e));
    survivors(t, t.map_values(|e: Entity| expired(e)))
}

/// The entity's box lies wholly outside the play field.
pub open spec fn outside_field(e: Entity) -> bool {
    let p = e.transform.translation;
    let h = e.aabb.half_size;
    ||| p.x - h.x > FIELD_HALF_WIDTH
    ||| p.x + h.x < -FIELD_HALF_WIDTH
    ||| p.y - h.y > FIELD_HALF_HEIGHT
    ||| p.y + h.y < -FIELD_HALF_HEIGHT
}

pub open spec fn leaves_field(e: Entity) -> bool {
    e.auto_despawn && outside_field(e)
}

pub open spec fn after_bounds(s: Seq<Entity>) -> Seq<Entity> {
    survivors(s, s.map_values(|e: Entity| leaves_field(e)))
}

/// The entities not marked in `dead`, in their order.
pub(crate) fn remove_marked(entities: &Vec<Entity>, dead: &Vec<bool>) -> (r: Vec<Entity>)
    requires
        dead@.len() == entities@.len(),
    ensures
        r@ == survivors(entities@, dead@),
{
    let n = entities.len();
    let mut out: Vec<Entity> = Vec::new();
    let mut i: usize = 0;
    while i < n
        invariant
            0 <= i <= n,
            n == entities@.len(),
            dead@.len() == n,
            out@ == survivors(entities@.take(i as int), dead@),
        decreases n - i,
    {
        proof {
            assert(entities@.take(i + 1).drop_last() =~= entities@.take(i as int));
        }
        if !dead[i] {
            out.push(entities[i]);
        }
        i += 1;
    }
    assert(entities@.take(n as int) =~= entities@);
    out
}

fn outside_field_exec(e: &Entity) -> (r: bool)
    requires
        e.aabb.wf(),
    ensures
        r == outside_field(*e),
{
    let x = e.transform.translation.x as i128;
    let y = e.transform.translation.y as i128;
    let hx = e.aabb.half_size.x as i128;
    let hy = e.aabb.half_size.y as i128;
    x - hx > FIELD_HALF_WIDTH as i128 || x + hx < -(FIELD_HALF_WIDTH as i128) || y - hy
        > FIELD_HALF_HEIGHT as i128 || y + hy < -(FIELD_HALF_HEIGHT as i128)
}

/// The world after one tick: player intent, integration, clamping, shooting
/// and collision resolution in that order, then lifetime expiry, removal
/// outside the field and the spawners. Removals and spawns of each phase
/// take effect before the next phase.
pub open spec fn tick_model(m: WorldModel, input: Input, draws: Seq<u64>) -> WorldModel {
    let e1 = m.entities.map_values(|e: Entity| with_intent(e, input));
    let e2 = e1.map_values(|e: Entity| moved(e));
    let e3 = e2.map_values(|e: Entity| clamped(e));
    let e4 = after_shot(e3, input.fire);
    let r = resolution(e4);
    let e5 = survivors(e4, r.0);
    let e6 = after_lifetimes(e5);
    let e7 = after_bounds(e6);
    let e8 = e7 + enemy_wave(m.enemy_spawners, draws);
    let e9 = e8 + mirror_wave(m.mirror_spawners);
    WorldModel {
        entities: e9,
        enemy_spawners: m.enemy_spawners.map_values(|sp: EnemySpawner| enemy_spawner_ticked(sp)),
        mirror_spawners: m.mirror_spawners.map_values(|sp: MirrorSpawner| mirror_spawner_ticked(sp)),
        score: score_plus(m.score, r.1),
    }
}

/// The player ship at the start of a game.
pub open spec fn player_start() -> Entity {
    Entity {
        kind: Kind::Player,
        transform: unrotated(0, PLAYER_START_Y as int),
        movement: Movement {
            acceleration: Vec2 { x: 0, y: 0 },
            velocity: Vec2 { x: 0, y: 0 },
            damping: PLAYER_DAMPING,
            max_speed: PLAYER_MAX_SPEED,
        },
        aabb: AABB { half_size: Vec2 { x: SHIP_HALF_SIZE, y: SHIP_HALF_SIZE } },
        lifetime: None,
        auto_despawn: false,
        visual: 0,
    }
}

fn sign_exec(v: i8) -> (r: i64)
    ensures
        r == sign(v),
{
    if v < 0 {
        -1
    } else if v > 0 {
        1
    } else {
        0
    }
}

fn clamp_exec(v: i64, lo: i64, hi: i64) -> (r: i64)
    requires
        lo <= hi,
    ensures
        r == clamp_int(v as int, lo as int, hi as int),
{
    if v < lo {
        lo
    } else if v > hi {
        hi
    } else {
        v
    }
}

impl World {
    /// Sets each player's acceleration from the input's direction intents.
    pub fn update_player_movement(&mut self, input: &Input)
        requires
            old(self)@.wf(),
        ensures
            final(self)@.wf(),
            final(self)@.entities == old(self)@.entities.map_values(|e: Entity| with_intent(e, *input)),
            final(self)@.enemy_spawners == old(self)@.enemy_spawners,
            final(self)@.mirror_spawners == old(self)@.mirror_spawners,
            final(self)@.score == old(self)@.score,
    {
        let n = self.entities.len();
        let ax = sign_exec(input.horizontal) * PLAYER_ACCELERATION;
        let ay = sign_exec(input.vertical) * PLAYER_ACCELERATION;
        let mut i: usize = 0;
        while i < n
            invariant
                0 <= i <= n,
                n == old(self)@.entities.len(),
                self.entities@.len() == n,
                ax == sign(input.horizontal) * PLAYER_ACCELERATION,
                ay == sign(input.vertical) * PLAYER_ACCELERATION,
                forall|j: int| 0 <= j < i ==> self.entities@[j] == with_intent(old(self)@.entities[j], *input),
                forall|j: int| i <= j < n ==> self.entities@[j] == old(self)@.entities[j],
                self.enemy_spawners@ == old(self)@.enemy_spawners,
                self.mirror_spawners@ == old(self)@.mirror_spawners,
                self.score == old(self).score,
                old(self)@.wf(),
                forall|j: int| 0 <= j < i ==> #[trigger] self.entities@[j].wf(),
            decreases n - i,
        {
            let mut e = self.entities[i];
            assert(e.wf());
            if e.kind == Kind::Player {
                e.movement.acceleration = Vec2 { x: ax, y: ay };
            }
            assert(e.wf());
            self.entities.set(i, e);
            i += 1;
        }
        assert(self@.entities =~= old(self)@.entities.map_values(|e: Entity| with_intent(e, *input)));
    }

    /// Advances every entity by one integrator step.
    pub fn update_movement(&mut self)
        requires
            old(self)@.wf(),
        ensures
            final(self)@.wf(),
            final(self)@.entities == old(self)@.entities.map_values(|e: Entity| moved(e)),
            final(self)@.enemy_spawners == old(self)@.enemy_spawners,
            final(self)@.mirror_spawners == old(self)@.mirror_spawners,
            final(self)@.score == old(self)@.score,
    {
        let n = self.entities.len();
        let mut i: usize = 0;
        while i < n
            invariant
                0 <= i <= n,
                n == old(self)@.entities.len(),
                self.entities@.len() == n,
                forall|j: int| 0 <= j < i ==> self.entities@[j] == moved(old(self)@.entities[j]),
                forall|j: int| i <= j < n ==> self.entities@[j] == old(self)@.entities[j],
                self.enemy_spawners@ == old(self)@.enemy_spawners,
                self.mirror_spawners@ == old(self)@.mirror_spawners,
                self.score == old(self).score,
                old(self)@.wf(),
                forall|j: int| 0 <= j < i ==> #[trigger] self.entities@[j].wf(),
            decreases n - i,
        {
            let mut e = self.entities[i];
            assert(e.wf());
            let mut m = e.movement;
            let mut t = e.transform.translation;
            integrate(&mut m, &mut t);
            e.movement = m;
            e.transform.translation = t;
            self.entities.set(i, e);
            i += 1;
        }
        assert(self@.entities =~= old(self)@.entities.map_values(|e: Entity| moved(e)));
    }

    /// Holds every player inside the play field.
    pub fn clamp_inside_world(&mut self)
        requires
            old(self)@.wf(),
        ensures
            final(self)@.wf(),
            final(self)@.entities == old(self)@.entities.map_values(|e: Entity| clamped(e)),
            final(self)@.enemy_spawners == old(self)@.enemy_spawners,
            final(self)@.mirror_spawners == old(self)@.mirror_spawners,
            final(self)@.score == old(self)@.score,
    {
        let n = self.entities.len();
        let mut i: usize = 0;
        while i < n
            invariant
                0 <= i <= n,
                n == old(self)@.entities.len(),
                self.entities@.len() == n,
                forall|j: int| 0 <= j < i ==> self.entities@[j] == clamped(old(self)@.entities[j]),
                forall|j: int| i <= j < n ==> self.entities@[j] == old(self)@.entities[j],
                self.enemy_spawners@ == old(self)@.enemy_spawners,
                self.mirror_spawners@ == old(self)@.mirror_spawners,
                self.score == old(self).score,
                old(self)@.wf(),
                forall|j: int| 0 <= j < i ==> #[trigger] self.entities@[j].wf(),
            decreases n - i,
        {
            let mut e = self.entities[i];
            assert(e.wf());
            if e.kind == Kind::Player {
                let lo_x = -FIELD_HALF_WIDTH + e.aabb.half_size.x;
                let hi_x = FIELD_HALF_WIDTH - e.aabb.half_size.x;
                let lo_y = -FIELD_HALF_HEIGHT + e.aabb.half_size.y;
                let hi_y = FIELD_HALF_HEIGHT - e.aabb.half_size.y;
                let x = clamp_exec(e.transform.translation.x, lo_x, hi_x);
                let y = clamp_exec(e.transform.translation.y, lo_y, hi_y);
                e.transform.translation = Vec2 { x, y };
                if x <= lo_x || x >= hi_x {
                    e.movement.velocity.x = 0;
                }
                if y <= lo_y || y >= hi_y {
                    e.movement.velocity.y = 0;
                }
            }
            self.entities.set(i, e);
            i += 1;
        }
        assert(self@.entities =~= old(self)@.entities.map_values(|e: Entity| clamped(e)));
    }

    /// Advances every lifetime by one tick and removes the entities whose
    /// lifetime has run out.
    pub fn update_lifetimes(&mut self)
        requires
            old(self)@.wf(),
        ensures
            final(self)@.wf(),
            final(self)@.entities == after_lifetimes(old(self)@.entities),
            final(self)@.enemy_spawners == old(self)@.enemy_spawners,
            final(self)@.mirror_spawners == old(self)@.mirror_spawners,
            final(self)@.score == old(self)@.score,
    {
        let n = self.entities.len();
        let mut dead: Vec<bool> = Vec::new();
        let mut i: usize = 0;
        while i < n
            invariant
                0 <= i <= n,
                n == old(self)@.entities.len(),
                self.entities@.len() == n,
                dead@.len() == i,
                forall|j: int|
                    0 <= j < i ==> self.entities@[j] == lifetime_ticked(old(self)@.entities[j]),
                forall|j: int| 0 <= j < i ==> dead@[j] == expired(self.entities@[j]),
                forall|j: int| i <= j < n ==> self.entities@[j] == old(self)@.entities[j],
                self.enemy_spawners@ == old(self)@.enemy_spawners,
                self.mirror_spawners@ == old(self)@.mirror_spawners,
                self.score == old(self).score,
                old(self)@.wf(),
                forall|j: int| 0 <= j < i ==> #[trigger] self.entities@[j].wf(),
            decreases n - i,
        {
            let mut e = self.entities[i];
            assert(e.wf());
            let mut gone = false;
            match e.lifetime {
                Some(l) => {
                    let mut t = l.timer;
                    t.tick(TICK_NANOS);
                    gone = t.finished();
                    e.lifetime = Some(Lifetime { timer: t });
                },
                None => {},
            }
            self.entities.set(i, e);
            dead.push(gone);
            i += 1;
        }
        let ghost ticked_all = self.entities@;
        assert(ticked_all =~= old(self)@.entities.map_values(|e: Entity| lifetime_ticked(e)));
        assert(dead@ =~= ticked_all.map_values(|e: Entity| expired(e)));
        self.entities = remove_marked(&self.entities, &dead);
        proof {
            assert(all_wf(ticked_all));
            lemma_survivors_wf(ticked_all, dead@);
        }
    }

    /// Removes the auto-despawning entities whose box lies wholly outside the
    /// play field.
    pub fn despawn_outside_world(&mut self)
        requires
            old(self)@.wf(),
        ensures
            final(self)@.wf(),
            final(self)@.entities == after_bounds(old(self)@.entities),
            final(self)@.enemy_spawners == old(self)@.enemy_spawners,
            final(self)@.mirror_spawners == old(self)@.mirror_spawners,
            final(self)@.score == old(self)@.score,
    {
        let n = self.entities.len();
        let mut dead: Vec<bool> = Vec::new();
        let mut i: usize = 0;
        while i < n
            invariant
                0 <= i <= n,
                n == self.entities@.len(),
                dead@.len() == i,
                forall|j: int| 0 <= j < i ==> dead@[j] == leaves_field(self.entities@[j]),
                old(self)@.wf(),
                self.entities@ == old(self)@.entities,
                self.enemy_spawners@ == old(self)@.enemy_spawners,
                self.mirror_spawners@ == old(self)@.mirror_spawners,
                self.score == old(self).score,
            decreases n - i,
        {
            let e = &self.entities[i];
            assert(e.wf());
            let gone = e.auto_despawn && outside_field_exec(e);
            dead.push(gone);
            i += 1;
        }
        let ghost before = self.entities@;
        assert(dead@ =~= before.map_values(|e: Entity| leaves_field(e)));
        proof {
            assert(all_wf(before));
            lemma_survivors_wf(before, dead@);
        }
        self.entities = remove_marked(&self.entities, &dead);
        assert(all_wf(self.entities@));
    }

    /// The world at the start of a game: the player near the bottom centre,
    /// two enemy spawners (every second with the first look, every second and
    /// a half with the second) and a
    /// mirror spawner in each bottom corner.
    pub fn setup() -> (r: World)
        ensures
            r@.wf(),
            r@.entities == seq![player_start()],
            r@.enemy_spawners == seq![
                enemy_spawner_of(NANOS_PER_SECOND, UNIT, 0),
                enemy_spawner_of(SLOW_SPAWN_INTERVAL, SLOW_ENEMY_SPEED, 1),
            ],
            r@.mirror_spawners == seq![
                mirror_spawner_of(Direction::Left),
                mirror_spawner_of(Direction::Right),
            ],
            r@.score == 0,
    {
        let player = Entity {
            kind: Kind::Player,
            transform: Transform::from_xy(0, PLAYER_START_Y),
            movement: Movement {
                acceleration: Vec2::zero(),
                velocity: Vec2::zero(),
                damping: PLAYER_DAMPING,
                max_speed: PLAYER_MAX_SPEED,
            },
            aabb: AABB { half_size: Vec2::new(SHIP_HALF_SIZE, SHIP_HALF_SIZE) },
            lifetime: None,
            auto_despawn: false,
            visual: 0,
        };
        let mut entities: Vec<Entity> = Vec::new();
        entities.push(player);
        let mut enemy_spawners: Vec<EnemySpawner> = Vec::new();
        enemy_spawners.push(enemy_spawner(NANOS_PER_SECOND, UNIT, 0));
        enemy_spawners.push(enemy_spawner(SLOW_SPAWN_INTERVAL, SLOW_ENEMY_SPEED, 1));
        let mut mirror_spawners: Vec<MirrorSpawner> = Vec::new();
        mirror_spawners.push(spawn_mirror_spawner(Direction::Left));
        mirror_spawners.push(spawn_mirror_spawner(Direction::Right));
        let r = World { entities, enemy_spawners, mirror_spawners, score: 0 };
        assert(r@.entities =~= seq![player_start()]);
        assert(r@.enemy_spawners =~= seq![
            enemy_spawner_of(NANOS_PER_SECOND, UNIT, 0),
            enemy_spawner_of(SLOW_SPAWN_INTERVAL, SLOW_ENEMY_SPEED, 1),
        ]);
        assert(r@.mirror_spawners =~= seq![
            mirror_spawner_of(Direction::Left),
            mirror_spawner_of(Direction::Right),
        ]);
        r
    }

    /// Number of live entities, for display.
    pub fn entity_count(&self) -> (r: usize)
        ensures
            r == self@.entities.len(),
    {
        self.entities.len()
    }

    /// Enemies destroyed so far, for display.
    pub fn score(&self) -> (r: u64)
        ensures
            r == self@.score,
    {
        self.score
    }

    /// One simulation tick, the `k`-th enemy spawner placing its enemy by
    /// `draws[k]` if it runs out.
    pub fn step_with_draws(&mut self, input: &Input, draws: &Vec<u64>)
        requires
            old(self)@.wf(),
            draws@.len() == old(self)@.enemy_spawners.len(),
            draws_in_range(draws@),
        ensures
            final(self)@.wf(),
            final(self)@ == tick_model(old(self)@, *input, draws@),
    {
        self.update_player_movement(input);
        self.update_movement();
        self.clamp_inside_world();
        self.shoot(input.fire);
        self.check_collisions();
        self.update_lifetimes();
        self.despawn_outside_world();
        self.spawn_enemies(draws);
        self.spawn_mirrors();
    }

    /// One simulation tick, with the enemies placed by draws from the
    /// thread-local random generator.
    pub fn step(&mut self, input: &Input)
        requires
            old(self)@.wf(),
        ensures
            final(self)@.wf(),
            exists|draws: Seq<u64>|
                draws.len() == old(self)@.enemy_spawners.len() && draws_in_range(draws)
                    && final(self)@ == tick_model(old(self)@, *input, draws),
    {
        let n = self.enemy_spawners.len();
        let mut draws: Vec<u64> = Vec::new();
        let mut k: usize = 0;
        while k < n
            invariant
                0 <= k <= n,
                draws@.len() == k,
                draws_in_range(draws@),
            decreases n - k,
        {
            let d = random_below(FIELD_WIDTH);
            draws.push(d);
            k += 1;
        }
        self.step_with_draws(input, &draws);
    }

    /// Whether every entity and spawner is within the ranges a tick handles.
    pub fn is_wf(&self) -> (r: bool)
        ensures
            r == self@.wf(),
    {
        let mut i: usize = 0;
        while i < self.entities.len()
            invariant
                0 <= i <= self.entities@.len(),
                forall|j: int| 0 <= j < i ==> #[trigger] self.entities@[j].wf(),
            decreases self.entities@.len() - i,
        {
            if !self.entities[i].is_wf() {
                assert(!self@.entities[i as int].wf());
                return false;
            }
            i += 1;
        }
        let mut k: usize = 0;
        while k < self.enemy_spawners.len()
            invariant
                0 <= k <= self.enemy_spawners@.len(),
                forall|j: int| 0 <= j < k ==> enemy_spawner_wf(#[trigger] self.enemy_spawners@[j]),
            decreases self.enemy_spawners@.len() - k,
        {
            let sp = &self.enemy_spawners[k];
            if !(sp.movement.is_wf() && sp.aabb.is_wf()) {
                assert(!enemy_spawner_wf(self@.enemy_spawners[k as int]));
                return false;
            }
            k += 1;
        }
        let mut k: usize = 0;
        while k < self.mirror_spawners.len()
            invariant
                0 <= k <= self.mirror_spawners@.len(),
                forall|j: int| 0 <= j < k ==> (#[trigger] self.mirror_spawners@[j]).angle.wf(),
            decreases self.mirror_spawners@.len() - k,
        {
            if !self.mirror_spawners[k].angle.is_wf() {
                assert(!self@.mirror_spawners[k as int].angle.wf());
                return false;
            }
            k += 1;
        }
        true
    }
}

} // verus!
