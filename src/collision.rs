//! Collision resolution between bullets and their targets.

use vstd::prelude::*;

use crate::geometry::{aabb_overlap, check_aabb_overlap, check_obb_overlap, obb_overlap};
use crate::entity::{Entity, Kind, all_wf};
use crate::world::{World, lemma_survivors_wf, remove_marked, survivors};

verus! {

/// Bullet `b` hits `c`: a mirror by the oriented-box test, an enemy by the
/// axis-aligned test. Nothing else is a target.
pub open spec fn hits(b: Entity, c: Entity) -> bool {
    ||| c.kind == Kind::Mirror && obb_overlap(
        b.transform,
        b.aabb.half_size,
        c.transform,
        c.aabb.half_size,
    )
    ||| c.kind == Kind::Enemy && aabb_overlap(
        b.transform.translation,
        b.aabb.half_size,
        c.transform.translation,
        c.aabb.half_size,
    )
}

/// The first entity from index `j` on, not yet marked destroyed, that the
/// entity at index `b` hits.
pub open spec fn first_hit(s: Seq<Entity>, dead: Seq<bool>, b: int, j: int) -> Option<int>
    decreases s.len() - j,
{
    if j < 0 || j >= s.len() {
        None
    } else if !dead[j] && hits(s[b], s[j]) {
        Some(j)
    } else {
        first_hit(s, dead, b, j + 1)
    }
}

/// Collision resolution from the bullet at index `i` on: each bullet not yet
/// destroyed is matched with its first live target, and both are marked
/// destroyed; `kills` counts the enemies destroyed.
pub open spec fn resolve_from(s: Seq<Entity>, dead: Seq<bool>, kills: nat, i: int) -> (Seq<bool>, nat)
    decreases s.len() - i,
{
    if i < 0 || i >= s.len() {
        (dead, kills)
    } else if s[i].kind != Kind::Bullet || dead[i] {
        resolve_from(s, dead, kills, i + 1)
    } else {
        match first_hit(s, dead, i, 0) {
            Some(j) => resolve_from(
                s,
                dead.update(i, true).update(j, true),
                kills + if s[j].kind == Kind::Enemy {
                    1nat
                } else {
                    0nat
                },
                i + 1,
            ),
            None => resolve_from(s, dead, kills, i + 1),
        }
    }
}

pub open spec fn no_marks(n: nat) -> Seq<bool> {
    Seq::new(n, |i: int| false)
}

/// The destroyed marks and the number of enemies destroyed by one pass.
pub open spec fn resolution(s: Seq<Entity>) -> (Seq<bool>, nat) {
    resolve_from(s, no_marks(s.len()), 0, 0)
}

pub open spec fn score_plus(score: u64, kills: nat) -> u64 {
    if score + kills > u64::MAX {
        u64::MAX
    } else {
        (score + kills) as u64
    }
}

pub(crate) proof fn lemma_first_hit(s: Seq<Entity>, dead: Seq<bool>, b: int, j: int)
    requires
        dead.len() == s.len(),
        0 <= b < s.len(),
    ensures
        first_hit(s, dead, b, j) matches Some(k) ==> j <= k < s.len() && !dead[k] && hits(s[b], s[k]),
    decreases s.len() - j,
{
    if j < 0 || j >= s.len() {
    } else if !dead[j] && hits(s[b], s[j]) {
    } else {
        lemma_first_hit(s, dead, b, j + 1);
    }
}

fn hits_exec(b: &Entity, c: &Entity) -> (r: bool)
    requires
        b.wf(),
        c.wf(),
    ensures
        r == hits(*b, *c),
{
    match c.kind {
        Kind::Mirror => check_obb_overlap(
            &b.transform,
            &b.aabb.half_size,
            &c.transform,
            &c.aabb.half_size,
        ),
        Kind::Enemy => check_aabb_overlap(
            &b.transform.translation,
            &b.aabb.half_size,
            &c.transform.translation,
            &c.aabb.half_size,
        ),
        _ => false,
    }
}

/// The first live target of the bullet at index `b`.
fn find_hit(entities: &Vec<Entity>, dead: &Vec<bool>, b: usize) -> (r: Option<usize>)
    requires
        all_wf(entities@),
        dead@.len() == entities@.len(),
        b < entities@.len(),
    ensures
        first_hit(entities@, dead@, b as int, 0) == (match r {
            Some(k) => Some(k as int),
            None => None::<int>,
        }),
{
    let n = entities.len();
    let mut j: usize = 0;
    while j < n
        invariant
            0 <= j <= n,
            n == entities@.len(),
            dead@.len() == n,
            b < n,
            all_wf(entities@),
            first_hit(entities@, dead@, b as int, j as int) == first_hit(entities@, dead@, b as int, 0),
        decreases n - j,
    {
        if !dead[j] && hits_exec(&entities[b], &entities[j]) {
            return Some(j);
        }
        j += 1;
    }
    None
}

impl World {
    /// Tests every bullet against the mirrors and enemies: a bullet and the
    /// first live target it hits are both destroyed, and each enemy destroyed
    /// adds one to the score. A destroyed bullet is tested no further.
    pub fn check_collisions(&mut self)
        requires
            old(self)@.wf(),
        ensures
            final(self)@.wf(),
            final(self)@.entities == survivors(old(self)@.entities, resolution(old(self)@.entities).0),
            final(self)@.score == score_plus(old(self)@.score, resolution(old(self)@.entities).1),
            final(self)@.enemy_spawners == old(self)@.enemy_spawners,
            final(self)@.mirror_spawners == old(self)@.mirror_spawners,
    {
        let n = self.entities.len();
        let ghost s = self.entities@;
        let mut dead: Vec<bool> = Vec::new();
        let mut k: usize = 0;
        while k < n
            invariant
                0 <= k <= n,
                dead@ =~= no_marks(k as nat),
            decreases n - k,
        {
            dead.push(false);
            k += 1;
        }
        let mut kills: usize = 0;
        let mut i: usize = 0;
        while i < n
            invariant
                0 <= i <= n,
                n == s.len(),
                s == self.entities@,
                s == old(self)@.entities,
                dead@.len() == n,
                kills <= i,
                resolve_from(s, dead@, kills as nat, i as int) == resolution(s),
                self.enemy_spawners@ == old(self)@.enemy_spawners,
                self.mirror_spawners@ == old(self)@.mirror_spawners,
                self.score == old(self).score,
                old(self)@.wf(),
            decreases n - i,
        {
            if self.entities[i].kind == Kind::Bullet && !dead[i] {
                let hit = find_hit(&self.entities, &dead, i);
                match hit {
                    Some(j) => {
                        proof {
                            lemma_first_hit(s, dead@, i as int, 0);
                        }
                        if self.entities[j].kind == Kind::Enemy {
                            kills += 1;
                        }
                        dead.set(i, true);
                        dead.set(j, true);
                    },
                    None => {},
                }
            }
            i += 1;
        }
        let ghost marks = dead@;
        proof {
            lemma_survivors_wf(s, marks);
        }
        self.entities = remove_marked(&self.entities, &dead);
        let total = self.score as u128 + kills as u128;
        if total > u64::MAX as u128 {
            self.score = u64::MAX;
        } else {
            self.score = total as u64;
        }
    }
}

} // verus!
