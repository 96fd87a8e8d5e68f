use arcade_core::geometry::{check_aabb_overlap, check_obb_overlap, Rotation, Transform, Vec2};
use arcade_core::movement::{integrate, Movement};
use arcade_core::timer::{Lifetime, Timer, TimerMode};
use arcade_core::entity::{DIAGONAL, TICK_NANOS, UNIT};

fn movement(ax: i64, ay: i64, vx: i64, vy: i64, damping: i64, max_speed: i64) -> Movement {
    Movement {
        acceleration: Vec2::new(ax, ay),
        velocity: Vec2::new(vx, vy),
        damping,
        max_speed,
    }
}

#[test]
fn acceleration_nudges_then_clamps_to_max_speed() {
    let mut m = movement(1000, 1000, 2000, 0, 100, 2000);
    let mut p = Vec2::new(0, 0);
    integrate(&mut m, &mut p);
    // (2100, 100) is longer than 2000: rescaled by 2000 / 2103.
    assert_eq!(m.velocity, Vec2::new(1997, 95));
    assert_eq!(p, Vec2::new(1997, 95));
    let len_sq = m.velocity.x * m.velocity.x + m.velocity.y * m.velocity.y;
    assert!(len_sq <= 2000 * 2000);
}

#[test]
fn speed_never_exceeds_limit_from_many_states() {
    let states = [
        movement(1000, 0, 2000, 0, 0, 2000),
        movement(-1000, -1000, -5000, 7000, 0, 3000),
        movement(0, 0, 123456, -654321, 0, 1000),
        movement(7, -3, 0, 0, 0, 0),
        movement(4294967296, 4294967296, 4294967296, 4294967296, 0, 4294967296),
    ];
    for s in states.iter() {
        let mut m = *s;
        let mut p = Vec2::new(10, 10);
        integrate(&mut m, &mut p);
        let len_sq =
            (m.velocity.x as i128).pow(2) + (m.velocity.y as i128).pow(2);
        assert!(len_sq <= (m.max_speed as i128).pow(2));
    }
}

#[test]
fn zero_max_speed_freezes_without_dividing_by_zero() {
    let mut m = movement(1000, 0, 500, 0, 0, 0);
    let mut p = Vec2::new(3, 4);
    integrate(&mut m, &mut p);
    assert_eq!(m.velocity, Vec2::new(0, 0));
    assert_eq!(p, Vec2::new(3, 4));
}

#[test]
fn damping_removes_fraction_of_velocity() {
    let mut m = movement(0, 0, 1000, -1000, 100, 2000);
    let mut p = Vec2::new(0, 0);
    integrate(&mut m, &mut p);
    assert_eq!(m.velocity, Vec2::new(900, -900));
    assert_eq!(p, Vec2::new(900, -900));
}

#[test]
fn small_negative_acceleration_rounds_toward_zero() {
    let mut m = movement(0, -100, 0, -1000, 0, 10000);
    let mut p = Vec2::new(0, 0);
    integrate(&mut m, &mut p);
    assert_eq!(m.velocity, Vec2::new(0, -1010));
    let mut m = movement(0, -5, 0, 0, 0, 10000);
    integrate(&mut m, &mut p);
    assert_eq!(m.velocity, Vec2::new(0, 0));
}

#[test]
fn position_saturates_at_integer_range() {
    let mut m = movement(0, 0, 3000, -3000, 0, 10000);
    let mut p = Vec2::new(i64::MAX - 10, i64::MIN + 10);
    integrate(&mut m, &mut p);
    assert_eq!(p, Vec2::new(i64::MAX, i64::MIN));
}

#[test]
fn separated_boxes_do_not_overlap() {
    let a = Vec2::new(0, 0);
    let b = Vec2::new(20 * UNIT, 0);
    let ha = Vec2::new(8 * UNIT, UNIT);
    let hb = Vec2::new(UNIT, UNIT);
    assert!(!check_aabb_overlap(&a, &ha, &b, &hb));
    assert!(!check_aabb_overlap(&b, &hb, &a, &ha));
    let ta = Transform::from_xy(0, 0);
    let tb = Transform::from_xy(20 * UNIT, 0);
    assert!(!check_obb_overlap(&ta, &ha, &tb, &hb));
}

#[test]
fn touching_boxes_do_not_overlap_by_interval_test() {
    let a = Vec2::new(0, 0);
    let b = Vec2::new(9 * UNIT, 0);
    let ha = Vec2::new(8 * UNIT, UNIT);
    let hb = Vec2::new(UNIT, UNIT);
    assert!(!check_aabb_overlap(&a, &ha, &b, &hb));
    let b = Vec2::new(9 * UNIT - 1, 0);
    assert!(check_aabb_overlap(&a, &ha, &b, &hb));
}

#[test]
fn bullet_inside_rotated_mirror_overlaps() {
    let mirror = Transform {
        translation: Vec2::new(5000, 7000),
        rotation: Rotation { cos: DIAGONAL, sin: DIAGONAL },
    };
    let bullet = Transform::from_xy(5000, 7000);
    let hm = Vec2::new(8 * UNIT, UNIT);
    let hb = Vec2::new(UNIT, UNIT);
    assert!(check_obb_overlap(&bullet, &hb, &mirror, &hm));
    assert!(check_obb_overlap(&mirror, &hm, &bullet, &hb));
}

#[test]
fn rotated_mirror_misses_box_beside_its_thin_side() {
    // The mirror leans along the diagonal; a point on the other diagonal,
    // 5 pixels off its centre, lies outside its 1-pixel half-thickness.
    let mirror = Transform {
        translation: Vec2::new(0, 0),
        rotation: Rotation { cos: DIAGONAL, sin: DIAGONAL },
    };
    let hm = Vec2::new(8 * UNIT, UNIT);
    let hb = Vec2::new(UNIT, UNIT);
    let off = Transform::from_xy(-4 * UNIT, 4 * UNIT);
    assert!(!check_obb_overlap(&off, &hb, &mirror, &hm));
    let along = Transform::from_xy(4 * UNIT, 4 * UNIT);
    assert!(check_obb_overlap(&along, &hb, &mirror, &hm));
}

#[test]
fn lifetime_of_five_seconds_runs_out_on_tick_three_hundred() {
    let mut l = Lifetime::from_seconds(5);
    for _ in 0..299 {
        l.timer.tick(TICK_NANOS);
        assert!(!l.timer.finished());
    }
    l.timer.tick(TICK_NANOS);
    assert!(l.timer.finished());
    assert_eq!(l.timer.elapsed, 5_000_000_000);
    l.timer.tick(TICK_NANOS);
    assert!(l.timer.finished());
    assert_eq!(l.timer.elapsed, 5_000_000_000);
}

#[test]
fn repeating_timer_starts_over_with_remainder() {
    let mut t = Timer::from_seconds(1, TimerMode::Repeating);
    for _ in 0..59 {
        t.tick(TICK_NANOS);
        assert!(!t.finished());
    }
    t.tick(TICK_NANOS);
    assert!(t.finished());
    assert_eq!(t.elapsed, 20);
    t.tick(TICK_NANOS);
    assert!(!t.finished());
    assert_eq!(t.elapsed, 20 + TICK_NANOS);
}

#[test]
fn repeating_timer_of_zero_duration_finishes_every_tick() {
    let mut t = Timer::new(0, TimerMode::Repeating);
    t.tick(5);
    assert!(t.finished());
    assert_eq!(t.elapsed, 0);
}
