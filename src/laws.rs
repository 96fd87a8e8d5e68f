use vstd::prelude::*;

use crate::geometry::{AABB, Transform};
use crate::movement::{
    ceil_sqrt, lemma_ceil_sqrt_from, lemma_trunc_div_bound, lemma_undamped_velocity_kept, trunc_div,
    ACCEL_DIVISOR,
};
use crate::collision::{first_hit, lemma_first_hit, no_marks, resolution, resolve_from};
use crate::entity::{Direction, Entity, Kind, FIELD_HALF_WIDTH};
use crate::spawn::{after_shot, bullet_from, volley};
use crate::world::{clamped, moved};

verus! {

/// A player standing at the right edge of the field, pushed rightward and not
/// moving leftward, is still at the right edge after integration and
/// clamping, with its horizontal velocity cut to zero in the same tick.
pub proof fn lemma_player_held_at_right_edge(e: Entity)
    requires
        e.wf(),
        e.kind == Kind::Player,
        e.transform.translation.x == FIELD_HALF_WIDTH - e.aabb.half_size.x,
        e.movement.acceleration.x > 0,
        e.movement.velocity.x >= 0,
    ensures
        clamped(moved(e)).transform.translation.x == FIELD_HALF_WIDTH - e.aabb.half_size.x,
        clamped(moved(e)).movement.velocity.x == 0,
{
    let m = e.movement;
    lemma_trunc_div_bound(m.acceleration.x as int, ACCEL_DIVISOR as int);
    let nx = m.velocity.x + trunc_div(m.acceleration.x as int, ACCEL_DIVISOR as int);
    let ny = m.velocity.y + trunc_div(m.acceleration.y as int, ACCEL_DIVISOR as int);
    assert(nx >= 0);
    let max = m.max_speed as int;
    let s = nx * nx + ny * ny;
    if s > max * max {
        assert(nx * nx >= 0 && ny * ny >= 0) by (nonlinear_arith);
        lemma_ceil_sqrt_from(s, 0);
        let l = ceil_sqrt(s);
        assert(max * max >= 0) by (nonlinear_arith) requires max >= 0;
        if l == 0 {
            assert(l * l == 0);
        }
        assert(nx * max >= 0) by (nonlinear_arith) requires nx >= 0, max >= 0;
        lemma_trunc_div_bound(nx * max, l);
    }
    let v = crate::movement::stepped_velocity(m);
    assert(v.0 >= 0);
    assert(v.0 * v.0 <= max * max) by {
        assert(v.0 * v.0 + v.1 * v.1 <= max * max) by {
            crate::movement::lemma_stepped_within_limit(m);
        }
        assert(v.1 * v.1 >= 0) by (nonlinear_arith);
    }
    if v.0 > max {
        assert(v.0 * v.0 > max * max) by (nonlinear_arith) requires v.0 > max, max >= 0;
    }
}

/// A bullet's movement is unchanged by an integrator step: it keeps its
/// speed of `BULLET_SPEED` on every tick until it is destroyed.
pub proof fn lemma_bullet_keeps_speed(t: Transform, a: AABB, d: Direction)
    ensures
        moved(bullet_from(t, a, d)).movement == bullet_from(t, a, d).movement,
{
    let m = bullet_from(t, a, d).movement;
    let vx = m.velocity.x as int;
    assert(vx == 3000 || vx == -3000);
    assert(vx * vx == 9000000) by (nonlinear_arith) requires vx == 3000 || vx == -3000;
    assert(m.velocity.length_sq() == vx * vx + 0 * 0);
    lemma_undamped_velocity_kept(m);
}


/// Number of entities of kind `k` in `s`.
pub open spec fn count_kind(s: Seq<Entity>, k: Kind) -> nat
    decreases s.len(),
{
    if s.len() == 0 {
        0
    } else {
        count_kind(s.drop_last(), k) + if s.last().kind == k {
            1nat
        } else {
            0nat
        }
    }
}

/// The entities after `n` consecutive shooting phases with fire held.
pub open spec fn fired_times(s: Seq<Entity>, n: nat) -> Seq<Entity>
    decreases n,
{
    if n == 0 {
        s
    } else {
        after_shot(fired_times(s, (n - 1) as nat), true)
    }
}

proof fn lemma_count_push(s: Seq<Entity>, e: Entity, k: Kind)
    ensures
        count_kind(s.push(e), k) == count_kind(s, k) + if e.kind == k {
            1nat
        } else {
            0nat
        },
{
    assert(s.push(e).drop_last() =~= s);
}

proof fn lemma_count_concat(a: Seq<Entity>, b: Seq<Entity>, k: Kind)
    ensures
        count_kind(a + b, k) == count_kind(a, k) + count_kind(b, k),
    decreases b.len(),
{
    if b.len() > 0 {
        assert((a + b).drop_last() =~= a + b.drop_last());
        lemma_count_concat(a, b.drop_last(), k);
    } else {
        assert(a + b =~= a);
    }
}

proof fn lemma_volley_counts(s: Seq<Entity>)
    ensures
        count_kind(volley(s), Kind::Bullet) == 2 * count_kind(s, Kind::Player),
        count_kind(volley(s), Kind::Player) == 0,
    decreases s.len(),
{
    if s.len() > 0 {
        let p = volley(s.drop_last());
        lemma_volley_counts(s.drop_last());
        let e = s.last();
        if e.kind == Kind::Player {
            let l = bullet_from(e.transform, e.aabb, Direction::Left);
            let r = bullet_from(e.transform, e.aabb, Direction::Right);
            lemma_count_push(p, l, Kind::Bullet);
            lemma_count_push(p.push(l), r, Kind::Bullet);
            lemma_count_push(p, l, Kind::Player);
            lemma_count_push(p.push(l), r, Kind::Player);
        }
    }
}

/// Holding fire through `n` shooting phases adds exactly two bullets per
/// player per phase, and no other player.
pub proof fn lemma_held_fire_spawns_two_per_tick(s: Seq<Entity>, n: nat)
    ensures
        count_kind(fired_times(s, n), Kind::Bullet) == count_kind(s, Kind::Bullet) + 2 * n
            * count_kind(s, Kind::Player),
        count_kind(fired_times(s, n), Kind::Player) == count_kind(s, Kind::Player),
    decreases n,
{
    if n > 0 {
        let n1 = (n - 1) as nat;
        let p = fired_times(s, n1);
        lemma_held_fire_spawns_two_per_tick(s, n1);
        lemma_count_concat(p, volley(p), Kind::Bullet);
        lemma_count_concat(p, volley(p), Kind::Player);
        lemma_volley_counts(p);
        let c = count_kind(s, Kind::Player) as int;
        assert(2 * n * c == 2 * n1 * c + 2 * c) by (nonlinear_arith) requires n == n1 + 1;
    } else {
        let c = count_kind(s, Kind::Player) as int;
        assert(2 * n * c == 0) by (nonlinear_arith) requires n == 0;
    }
}

/// Number of entities of kind `k` in `s` whose mark in `dead` is set.
pub open spec fn count_marked(s: Seq<Entity>, dead: Seq<bool>, k: Kind) -> nat
    decreases s.len(),
{
    if s.len() == 0 {
        0
    } else {
        count_marked(s.drop_last(), dead, k) + if dead[s.len() - 1] && s.last().kind == k {
            1nat
        } else {
            0nat
        }
    }
}

proof fn lemma_marked_agree(s: Seq<Entity>, d1: Seq<bool>, d2: Seq<bool>, k: Kind)
    requires
        forall|i: int| 0 <= i < s.len() ==> d1[i] == d2[i],
    ensures
        count_marked(s, d1, k) == count_marked(s, d2, k),
    decreases s.len(),
{
    if s.len() > 0 {
        lemma_marked_agree(s.drop_last(), d1, d2, k);
    }
}

proof fn lemma_marked_update(s: Seq<Entity>, dead: Seq<bool>, x: int, k: Kind)
    requires
        0 <= x < s.len(),
        dead.len() == s.len(),
    ensures
        count_marked(s, dead.update(x, true), k) == count_marked(s, dead, k) + if !dead[x]
            && s[x].kind == k {
            1nat
        } else {
            0nat
        },
    decreases s.len(),
{
    let t = s.drop_last();
    if x == s.len() - 1 {
        lemma_marked_agree(t, dead.update(x, true), dead, k);
    } else {
        lemma_marked_update_prefix(t, dead, x, k, s.len() as int);
    }
}

proof fn lemma_marked_update_prefix(t: Seq<Entity>, dead: Seq<bool>, x: int, k: Kind, n: int)
    requires
        0 <= x < t.len(),
        t.len() < n,
        dead.len() == n,
    ensures
        count_marked(t, dead.update(x, true), k) == count_marked(t, dead, k) + if !dead[x]
            && t[x].kind == k {
            1nat
        } else {
            0nat
        },
    decreases t.len(),
{
    let u = t.drop_last();
    if x == t.len() - 1 {
        lemma_marked_agree(u, dead.update(x, true), dead, k);
    } else {
        lemma_marked_update_prefix(u, dead, x, k, n);
    }
}

proof fn lemma_no_marks_counted(s: Seq<Entity>, k: Kind)
    ensures
        count_marked(s, no_marks(s.len()), k) == 0,
{
    lemma_unmarked_counted(s, no_marks(s.len()), k);
}

proof fn lemma_unmarked_counted(s: Seq<Entity>, dead: Seq<bool>, k: Kind)
    requires
        forall|i: int| 0 <= i < s.len() ==> !dead[i],
    ensures
        count_marked(s, dead, k) == 0,
    decreases s.len(),
{
    if s.len() > 0 {
        lemma_unmarked_counted(s.drop_last(), dead, k);
    }
}

/// Counting invariant of collision resolution: enemies destroyed equal the
/// score gained, and destroyed bullets equal destroyed targets.
proof fn lemma_resolve_counts(s: Seq<Entity>, dead: Seq<bool>, kills: nat, i: int)
    requires
        dead.len() == s.len(),
        kills == count_marked(s, dead, Kind::Enemy),
        count_marked(s, dead, Kind::Bullet) == count_marked(s, dead, Kind::Mirror)
            + count_marked(s, dead, Kind::Enemy),
    ensures
        ({
            let r = resolve_from(s, dead, kills, i);
            &&& r.1 == count_marked(s, r.0, Kind::Enemy)
            &&& count_marked(s, r.0, Kind::Bullet) == count_marked(s, r.0, Kind::Mirror)
                + count_marked(s, r.0, Kind::Enemy)
        }),
    decreases s.len() - i,
{
    if i < 0 || i >= s.len() {
    } else if s[i].kind != Kind::Bullet || dead[i] {
        lemma_resolve_counts(s, dead, kills, i + 1);
    } else {
        match first_hit(s, dead, i, 0) {
            Some(j) => {
                lemma_first_hit(s, dead, i, 0);
                let d1 = dead.update(i, true);
                let d2 = d1.update(j, true);
                assert(j != i);
                lemma_marked_update(s, dead, i, Kind::Bullet);
                lemma_marked_update(s, dead, i, Kind::Mirror);
                lemma_marked_update(s, dead, i, Kind::Enemy);
                lemma_marked_update(s, d1, j, Kind::Bullet);
                lemma_marked_update(s, d1, j, Kind::Mirror);
                lemma_marked_update(s, d1, j, Kind::Enemy);
                lemma_resolve_counts(
                    s,
                    d2,
                    kills + if s[j].kind == Kind::Enemy {
                        1nat
                    } else {
                        0nat
                    },
                    i + 1,
                );
            },
            None => {
                lemma_resolve_counts(s, dead, kills, i + 1);
            },
        }
    }
}

/// In one collision pass every destroyed bullet takes exactly one target
/// with it, and the score grows by exactly the number of enemies destroyed:
/// a bullet, once destroyed, is matched against no second target.
pub proof fn lemma_collisions_count_each_hit_once(s: Seq<Entity>)
    ensures
        resolution(s).1 == count_marked(s, resolution(s).0, Kind::Enemy),
        count_marked(s, resolution(s).0, Kind::Bullet) == count_marked(
            s,
            resolution(s).0,
            Kind::Mirror,
        ) + count_marked(s, resolution(s).0, Kind::Enemy),
{
    lemma_no_marks_counted(s, Kind::Enemy);
    lemma_no_marks_counted(s, Kind::Bullet);
    lemma_no_marks_counted(s, Kind::Mirror);
    lemma_resolve_counts(s, no_marks(s.len()), 0, 0);
}

} // verus!
