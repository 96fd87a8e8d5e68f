use arcade_core::geometry::{Rotation, Transform, Vec2, AABB, ROTATION_ONE};
use arcade_core::movement::Movement;
use arcade_core::timer::{Lifetime, Timer, TimerMode};
use arcade_core::entity::{
    Direction, EnemySpawner, Entity, Input, Kind, MirrorSpawner, BULLET_SPEED, DIAGONAL,
    FIELD_HALF_HEIGHT, FIELD_HALF_WIDTH, FIELD_WIDTH, UNIT,
};
use arcade_core::spawn::{enemy_spawn_x, spawn_bullet, spawn_enemy, spawn_mirror, spawn_mirror_spawner};
use arcade_core::world::World;

fn still() -> Movement {
    Movement {
        acceleration: Vec2::zero(),
        velocity: Vec2::zero(),
        damping: 0,
        max_speed: 0,
    }
}

fn entity(kind: Kind, x: i64, y: i64, hx: i64, hy: i64) -> Entity {
    Entity {
        kind,
        transform: Transform::from_xy(x, y),
        movement: still(),
        aabb: AABB { half_size: Vec2::new(hx, hy) },
        lifetime: None,
        auto_despawn: false,
        visual: 0,
    }
}

fn player_at(x: i64, y: i64) -> Entity {
    Entity {
        movement: Movement {
            acceleration: Vec2::zero(),
            velocity: Vec2::zero(),
            damping: 100,
            max_speed: 2000,
        },
        ..entity(Kind::Player, x, y, 16 * UNIT, 16 * UNIT)
    }
}

fn world_of(entities: Vec<Entity>) -> World {
    World {
        entities,
        enemy_spawners: Vec::new(),
        mirror_spawners: Vec::new(),
        score: 0,
    }
}

fn count(w: &World, kind: Kind) -> usize {
    w.entities.iter().filter(|e| e.kind == kind).count()
}

const IDLE: Input = Input { horizontal: 0, vertical: 0, fire: false };
const FIRE: Input = Input { horizontal: 0, vertical: 0, fire: true };

#[test]
fn player_at_right_edge_is_held_and_stopped() {
    let edge = FIELD_HALF_WIDTH - 16 * UNIT;
    let mut w = world_of(vec![player_at(edge, 0)]);
    let right = Input { horizontal: 1, vertical: 0, fire: false };
    for _ in 0..3 {
        w.step_with_draws(&right, &Vec::new());
        assert_eq!(w.entities[0].transform.translation.x, edge);
        assert_eq!(w.entities[0].movement.velocity.x, 0);
        assert_eq!(w.entities[0].movement.acceleration.x, 1000);
    }
}

#[test]
fn player_input_sets_acceleration_by_sign() {
    let mut w = world_of(vec![player_at(0, 0), entity(Kind::Enemy, 0, 100 * UNIT, 1, 1)]);
    w.update_player_movement(&Input { horizontal: -5, vertical: 3, fire: false });
    assert_eq!(w.entities[0].movement.acceleration, Vec2::new(-1000, 1000));
    assert_eq!(w.entities[1].movement.acceleration, Vec2::zero());
}

#[test]
fn player_moves_and_is_clamped_at_bottom() {
    let bottom = -FIELD_HALF_HEIGHT + 16 * UNIT;
    let mut w = world_of(vec![player_at(0, bottom + 50)]);
    let down = Input { horizontal: 0, vertical: -1, fire: false };
    w.step_with_draws(&down, &Vec::new());
    // Velocity -100 carries the ship 50 past the edge: held there, stopped.
    assert_eq!(w.entities[0].transform.translation.y, bottom);
    assert_eq!(w.entities[0].movement.velocity.y, 0);
}

#[test]
fn bullet_keeps_speed_every_tick() {
    let ship = Transform::from_xy(0, 0);
    let aabb = AABB { half_size: Vec2::new(16 * UNIT, 16 * UNIT) };
    let b = spawn_bullet(&ship, &aabb, Direction::Right);
    assert_eq!(b.transform.translation, Vec2::new(16 * UNIT, 0));
    assert_eq!(b.movement.velocity, Vec2::new(BULLET_SPEED, 0));
    assert_eq!(b.movement.damping, 0);
    assert!(b.auto_despawn);
    let mut w = world_of(vec![b]);
    for k in 1..=20 {
        w.update_movement();
        assert_eq!(w.entities[0].movement.velocity, Vec2::new(3000, 0));
        assert_eq!(w.entities[0].transform.translation.x, 16 * UNIT + 3000 * k);
    }
    let left = spawn_bullet(&ship, &aabb, Direction::Left);
    assert_eq!(left.transform.translation, Vec2::new(-16 * UNIT, 0));
    assert_eq!(left.movement.velocity, Vec2::new(-BULLET_SPEED, 0));
}

#[test]
fn entity_with_five_second_lifetime_goes_on_tick_three_hundred() {
    let mut e = entity(Kind::Enemy, 0, 0, UNIT, UNIT);
    e.lifetime = Some(Lifetime::from_seconds(5));
    let mut w = world_of(vec![e, entity(Kind::Mirror, 0, 0, UNIT, UNIT)]);
    for _ in 0..299 {
        w.update_lifetimes();
        assert_eq!(w.entity_count(), 2);
    }
    w.update_lifetimes();
    assert_eq!(w.entity_count(), 1);
    assert_eq!(w.entities[0].kind, Kind::Mirror);
}

#[test]
fn bullet_leaves_only_when_wholly_outside() {
    let mut inside = entity(Kind::Bullet, FIELD_HALF_WIDTH + UNIT, 0, UNIT, UNIT);
    inside.auto_despawn = true;
    let mut outside = entity(Kind::Bullet, FIELD_HALF_WIDTH + UNIT + 1, 0, UNIT, UNIT);
    outside.auto_despawn = true;
    let mut below = entity(Kind::Bullet, 0, -FIELD_HALF_HEIGHT - UNIT - 1, UNIT, UNIT);
    below.auto_despawn = true;
    let kept = entity(Kind::Enemy, 0, -FIELD_HALF_HEIGHT - 10 * UNIT, UNIT, UNIT);
    let mut w = world_of(vec![inside, outside, below, kept]);
    w.despawn_outside_world();
    assert_eq!(w.entities, vec![inside, kept]);
}

#[test]
fn held_fire_spawns_two_bullets_per_tick() {
    let mut w = world_of(vec![player_at(0, 0)]);
    for n in 1..=5 {
        w.step_with_draws(&FIRE, &Vec::new());
        assert_eq!(count(&w, Kind::Bullet), 2 * n);
    }
    w.step_with_draws(&IDLE, &Vec::new());
    assert_eq!(count(&w, Kind::Bullet), 10);
    assert_eq!(count(&w, Kind::Player), 1);
}

#[test]
fn shoot_fires_left_then_right_for_each_player() {
    let mut w = world_of(vec![player_at(0, 0), player_at(50 * UNIT, 10 * UNIT)]);
    w.shoot(false);
    assert_eq!(w.entity_count(), 2);
    w.shoot(true);
    assert_eq!(w.entity_count(), 6);
    assert_eq!(w.entities[2].transform.translation, Vec2::new(-16 * UNIT, 0));
    assert_eq!(w.entities[3].transform.translation, Vec2::new(16 * UNIT, 0));
    assert_eq!(w.entities[4].transform.translation, Vec2::new(34 * UNIT, 10 * UNIT));
    assert_eq!(w.entities[5].transform.translation, Vec2::new(66 * UNIT, 10 * UNIT));
}

#[test]
fn bullet_hitting_two_enemies_scores_once() {
    let bullet = entity(Kind::Bullet, 0, 0, UNIT, UNIT);
    let e1 = entity(Kind::Enemy, 0, 0, 16 * UNIT, 16 * UNIT);
    let e2 = entity(Kind::Enemy, 5 * UNIT, 0, 16 * UNIT, 16 * UNIT);
    let mut w = world_of(vec![e1, bullet, e2]);
    w.check_collisions();
    assert_eq!(w.score(), 1);
    assert_eq!(w.entities, vec![e2]);
}

#[test]
fn two_bullets_on_one_enemy_destroy_it_once() {
    let b1 = entity(Kind::Bullet, 0, 0, UNIT, UNIT);
    let b2 = entity(Kind::Bullet, UNIT, 0, UNIT, UNIT);
    let e = entity(Kind::Enemy, 0, 0, 16 * UNIT, 16 * UNIT);
    let mut w = world_of(vec![b1, b2, e]);
    w.check_collisions();
    assert_eq!(w.score(), 1);
    assert_eq!(w.entities, vec![b2]);
}

#[test]
fn bullet_and_mirror_destroy_each_other_without_score() {
    let mut mirror = entity(Kind::Mirror, 0, 0, 8 * UNIT, UNIT);
    mirror.transform.rotation = Rotation { cos: DIAGONAL, sin: DIAGONAL };
    let bullet = entity(Kind::Bullet, 0, 0, UNIT, UNIT);
    let player = player_at(100 * UNIT, 0);
    let mut w = world_of(vec![bullet, mirror, player]);
    w.score = 7;
    w.check_collisions();
    assert_eq!(w.score(), 7);
    assert_eq!(w.entities, vec![player]);
}

#[test]
fn bullets_ignore_players_and_other_bullets() {
    let b1 = entity(Kind::Bullet, 0, 0, UNIT, UNIT);
    let b2 = entity(Kind::Bullet, 0, 0, UNIT, UNIT);
    let p = player_at(0, 0);
    let mut w = world_of(vec![b1, b2, p]);
    w.check_collisions();
    assert_eq!(w.entity_count(), 3);
    assert_eq!(w.score(), 0);
}

#[test]
fn score_saturates() {
    let bullet = entity(Kind::Bullet, 0, 0, UNIT, UNIT);
    let enemy = entity(Kind::Enemy, 0, 0, UNIT, UNIT);
    let mut w = world_of(vec![bullet, enemy]);
    w.score = u64::MAX;
    w.check_collisions();
    assert_eq!(w.score(), u64::MAX);
    assert_eq!(w.entity_count(), 0);
}

#[test]
fn spawn_x_spreads_draw_over_field() {
    assert_eq!(enemy_spawn_x(0), -243200);
    assert_eq!(enemy_spawn_x(256000), 0);
    assert_eq!(enemy_spawn_x(FIELD_WIDTH - 1), 243199);
    assert_eq!(enemy_spawn_x(1), -243199);
}

#[test]
fn enemy_spawner_makes_enemy_at_top_each_second() {
    let template = Movement {
        acceleration: Vec2::new(0, -100),
        velocity: Vec2::new(0, -1000),
        damping: 0,
        max_speed: 10000,
    };
    let spawner = EnemySpawner {
        timer: Timer::from_seconds(1, TimerMode::Repeating),
        movement: template,
        aabb: AABB { half_size: Vec2::new(16 * UNIT, 16 * UNIT) },
        visual: 1,
    };
    let mut w = World {
        entities: Vec::new(),
        enemy_spawners: vec![spawner],
        mirror_spawners: Vec::new(),
        score: 0,
    };
    for _ in 0..59 {
        w.spawn_enemies(&vec![0]);
        assert_eq!(w.entity_count(), 0);
    }
    w.spawn_enemies(&vec![256000]);
    assert_eq!(w.entity_count(), 1);
    let e = w.entities[0];
    assert_eq!(e.kind, Kind::Enemy);
    assert_eq!(e.transform.translation, Vec2::new(0, FIELD_HALF_HEIGHT + 16 * UNIT));
    assert_eq!(e.movement, template);
    assert_eq!(e.lifetime, Some(Lifetime::from_seconds(5)));
    assert!(!e.auto_despawn);
    assert_eq!(e.visual, 1);
    assert_eq!(spawn_enemy(&spawner, 256000), e);
}

#[test]
fn random_spawns_stay_inside_spread() {
    let mut w = World::setup();
    let mut seen = 0;
    for _ in 0..600 {
        w.step(&IDLE);
        for e in w.entities.iter() {
            if e.kind == Kind::Enemy && e.transform.translation.y == FIELD_HALF_HEIGHT + 16 * UNIT - 1010 {
                seen += 1;
                assert!(e.transform.translation.x >= -243200);
                assert!(e.transform.translation.x < 243200);
            }
        }
    }
    assert!(seen > 0);
}

#[test]
fn mirror_spawners_sit_in_bottom_corners() {
    let left = spawn_mirror_spawner(Direction::Left);
    let right = spawn_mirror_spawner(Direction::Right);
    assert_eq!(left.angle, Rotation { cos: DIAGONAL, sin: -DIAGONAL });
    assert_eq!(right.angle, Rotation { cos: DIAGONAL, sin: DIAGONAL });
    assert_eq!(left.position, Vec2::new(-246000, -202000));
    assert_eq!(right.position, Vec2::new(246000, -202000));
    let m = spawn_mirror(&right);
    assert_eq!(m.kind, Kind::Mirror);
    assert_eq!(m.transform.translation, right.position);
    assert_eq!(m.transform.rotation, right.angle);
    assert_eq!(m.aabb.half_size, Vec2::new(8 * UNIT, UNIT));
    assert_eq!(m.movement.velocity, Vec2::new(0, UNIT));
    assert_eq!(m.lifetime, Some(Lifetime::from_seconds(10)));
}

#[test]
fn mirror_spawner_fires_each_second() {
    let spawner: MirrorSpawner = spawn_mirror_spawner(Direction::Left);
    let mut w = World {
        entities: Vec::new(),
        enemy_spawners: Vec::new(),
        mirror_spawners: vec![spawner],
        score: 0,
    };
    for _ in 0..120 {
        w.spawn_mirrors();
    }
    assert_eq!(w.entity_count(), 2);
}

#[test]
fn setup_places_player_and_spawners() {
    let w = World::setup();
    assert_eq!(w.entity_count(), 1);
    let p = w.entities[0];
    assert_eq!(p.kind, Kind::Player);
    assert_eq!(p.transform.translation, Vec2::new(0, -160000));
    assert_eq!(p.transform.rotation, Rotation { cos: ROTATION_ONE, sin: 0 });
    assert_eq!(p.movement.max_speed, 2000);
    assert_eq!(p.movement.damping, 100);
    assert_eq!(w.enemy_spawners.len(), 2);
    assert_eq!(w.enemy_spawners[0].timer.duration, 1_000_000_000);
    assert_eq!(w.enemy_spawners[1].timer.duration, 1_500_000_000);
    assert_eq!(w.enemy_spawners[1].movement.velocity, Vec2::new(0, -500));
    assert_eq!(w.mirror_spawners.len(), 2);
    assert_eq!(w.score(), 0);
}

#[test]
fn a_minute_of_play_keeps_bounded_entities() {
    let mut w = World::setup();
    let fire_right = Input { horizontal: 1, vertical: 1, fire: true };
    for _ in 0..3600 {
        w.step_with_draws(&fire_right, &vec![1000, 500000]);
    }
    // Bullets leave the field within a few hundred ticks, enemies and
    // mirrors expire: the population stays bounded.
    assert!(w.entity_count() < 400);
    assert_eq!(count(&w, Kind::Player), 1);
}

#[test]
fn well_formedness_is_checked() {
    let mut w = World::setup();
    assert!(w.is_wf());
    w.step_with_draws(&FIRE, &vec![0, 0]);
    assert!(w.is_wf());
    let mut big = player_at(0, 0);
    big.aabb.half_size.x = FIELD_HALF_WIDTH + 1;
    let w2 = world_of(vec![big]);
    assert!(!w2.is_wf());
    let mut fast = entity(Kind::Enemy, 0, 0, UNIT, UNIT);
    fast.movement.damping = 1001;
    assert!(!world_of(vec![fast]).is_wf());
    let mut tilted = World::setup();
    tilted.mirror_spawners[1].angle.cos = ROTATION_ONE + 1;
    assert!(!tilted.is_wf());
}
