//! Collision resolution: vehicle against obstacles, vehicle against
//! enemies, health bookkeeping, and projectiles against enemies.
//!
//! All tests are axis-aligned proximity boxes, evaluated over whatever
//! positions the systems before them produced this tick; empty
//! collections make every pass a no-op.

use vstd::prelude::*;
use crate::bullet::Bullet;
use crate::enemy::Enemy;
use crate::physics::POS_LIMIT_MU;
use crate::road::{Obstacle, TILE_MU};

verus! {

/// Half-side of the vehicle-obstacle proximity box, milli-units.
pub const OBSTACLE_BOX_MU: i64 = 25_000;

/// Half-side of the vehicle-enemy proximity box, milli-units.
pub const ENEMY_BOX_MU: i64 = 20_000;

/// Half-side of the projectile-enemy proximity box, milli-units.
pub const BULLET_BOX_MU: i64 = 10_000;

/// Full vehicle health, milli-points.
pub const MAX_CAR_HEALTH_MILLI: i64 = 200_000;

/// Health lost per enemy contact, milli-points.
pub const ZOMBIE_ATTACK_MILLI: i64 = 2_000;

/// Speed forced on the vehicle when it hits an obstacle (a bounce
/// backwards), milli-units per second.
pub const BOUNCE_SPEED_MU: i64 = -6_000;

/// Whether the vehicle at `(x, y)` is in contact with the obstacle.
pub open spec fn obstacle_hit_spec(ob: Obstacle, x: int, y: int) -> bool {
    &&& -OBSTACLE_BOX_MU <= ob.tile_x * TILE_MU - x <= OBSTACLE_BOX_MU
    &&& -OBSTACLE_BOX_MU <= ob.row * TILE_MU - y <= OBSTACLE_BOX_MU
}

/// Whether any registered obstacle is in contact with the vehicle.
pub fn any_obstacle_hit(obstacles: &Vec<Obstacle>, x: i64, y: i64) -> (r: bool)
    requires
        forall|k: int| 0 <= k < obstacles@.len() ==> (#[trigger] obstacles@[k]).wf(),
        -POS_LIMIT_MU <= x <= POS_LIMIT_MU,
        -POS_LIMIT_MU <= y <= POS_LIMIT_MU,
    ensures
        r == exists|k: int|
            0 <= k < obstacles@.len() && obstacle_hit_spec(#[trigger] obstacles@[k], x as int, y as int),
{
    let mut i: usize = 0;
    while i < obstacles.len()
        invariant
            i <= obstacles@.len(),
            forall|k: int| 0 <= k < obstacles@.len() ==> (#[trigger] obstacles@[k]).wf(),
            -POS_LIMIT_MU <= x <= POS_LIMIT_MU,
            -POS_LIMIT_MU <= y <= POS_LIMIT_MU,
            forall|k: int|
                0 <= k < i ==> !obstacle_hit_spec(#[trigger] obstacles@[k], x as int, y as int),
        decreases obstacles@.len() - i,
    {
        let ob = obstacles[i];
        let ox = ob.x_mu();
        let oy = ob.y_mu();
        if -OBSTACLE_BOX_MU <= ox - x && ox - x <= OBSTACLE_BOX_MU && -OBSTACLE_BOX_MU <= oy - y
            && oy - y <= OBSTACLE_BOX_MU {
            return true;
        }
        i = i + 1;
    }
    false
}

/// Whether the enemy is in contact with the vehicle at `(x, y)`.
pub open spec fn enemy_touch_spec(e: Enemy, x: int, y: int) -> bool {
    &&& -ENEMY_BOX_MU <= e.x_mu - x <= ENEMY_BOX_MU
    &&& -ENEMY_BOX_MU <= e.y_mu - y <= ENEMY_BOX_MU
}

/// How many of the first `n` enemies are in contact with the vehicle;
/// simultaneous contacts all count, with no deduplication.
pub open spec fn hit_count_spec(s: Seq<Enemy>, x: int, y: int, n: int) -> int
    decreases n,
{
    if n <= 0 {
        0
    } else {
        hit_count_spec(s, x, y, n - 1) + if enemy_touch_spec(s[n - 1], x, y) {
            1int
        } else {
            0int
        }
    }
}

/// Counts this tick's vehicle-enemy contacts.
pub fn count_enemy_hits(enemies: &Vec<Enemy>, x: i64, y: i64) -> (n: usize)
    requires
        forall|k: int| 0 <= k < enemies@.len() ==> (#[trigger] enemies@[k]).wf(),
        -POS_LIMIT_MU <= x <= POS_LIMIT_MU,
        -POS_LIMIT_MU <= y <= POS_LIMIT_MU,
    ensures
        n == hit_count_spec(enemies@, x as int, y as int, enemies@.len() as int),
        n <= enemies@.len(),
{
    let mut count: usize = 0;
    let mut i: usize = 0;
    while i < enemies.len()
        invariant
            i <= enemies@.len(),
            forall|k: int| 0 <= k < enemies@.len() ==> (#[trigger] enemies@[k]).wf(),
            -POS_LIMIT_MU <= x <= POS_LIMIT_MU,
            -POS_LIMIT_MU <= y <= POS_LIMIT_MU,
            count == hit_count_spec(enemies@, x as int, y as int, i as int),
            count <= i,
        decreases enemies@.len() - i,
    {
        let e = enemies[i];
        if -ENEMY_BOX_MU <= e.x_mu - x && e.x_mu - x <= ENEMY_BOX_MU && -ENEMY_BOX_MU <= e.y_mu - y
            && e.y_mu - y <= ENEMY_BOX_MU {
            count = count + 1;
        }
        i = i + 1;
    }
    count
}

/// Resolves this tick's contact damage: with god mode or no contacts
/// the health is untouched; otherwise each contact costs
/// [`ZOMBIE_ATTACK_MILLI`], health never drops below zero, and the run
/// is lost exactly when the damage exhausts it.
pub fn apply_zombie_hits(health_milli: i64, hits: usize, god_mode: bool) -> (r: (i64, bool))
    requires
        0 <= health_milli <= MAX_CAR_HEALTH_MILLI,
        hits <= 1_000_000_000,
    ensures
        god_mode ==> r == (health_milli, false),
        !god_mode && hits == 0 ==> r == (health_milli, false),
        !god_mode && hits > 0 ==> {
            &&& r.0 == (if health_milli - ZOMBIE_ATTACK_MILLI * hits < 0 {
                0int
            } else {
                health_milli - ZOMBIE_ATTACK_MILLI * hits
            })
            &&& r.1 == (health_milli <= ZOMBIE_ATTACK_MILLI * hits)
        },
        0 <= r.0 <= health_milli,
{
    if god_mode || hits == 0 {
        return (health_milli, false);
    }
    let damage: i64 = ZOMBIE_ATTACK_MILLI * (hits as i64);
    if health_milli <= damage {
        (0, true)
    } else {
        (health_milli - damage, false)
    }
}

/// Whether the projectile is in contact with the enemy.
pub open spec fn bullet_hits_enemy_spec(b: Bullet, e: Enemy) -> bool {
    &&& -BULLET_BOX_MU <= b.x_mu - e.x_mu <= BULLET_BOX_MU
    &&& -BULLET_BOX_MU <= b.y_mu - e.y_mu <= BULLET_BOX_MU
}

/// How many of the first `n` projectiles are in contact with the enemy.
pub open spec fn bullet_hit_count_spec(bullets: Seq<Bullet>, e: Enemy, n: int) -> int
    decreases n,
{
    if n <= 0 {
        0
    } else {
        bullet_hit_count_spec(bullets, e, n - 1) + if bullet_hits_enemy_spec(bullets[n - 1], e) {
            1int
        } else {
            0int
        }
    }
}

/// The per-enemy pair count is between zero and the projectile count.
pub proof fn lemma_bullet_hit_count_bounds(bullets: Seq<Bullet>, e: Enemy, n: int)
    requires
        0 <= n,
    ensures
        0 <= bullet_hit_count_spec(bullets, e, n) <= n,
    decreases n,
{
    if n > 0 {
        lemma_bullet_hit_count_bounds(bullets, e, n - 1);
    }
}

/// Total projectile-enemy pairs over the first `n` enemies.  An enemy
/// hit by several projectiles in the same tick contributes one pair
/// per projectile, so it may be scored more than once before its
/// despawn is applied.
pub open spec fn total_pairs_spec(bullets: Seq<Bullet>, enemies: Seq<Enemy>, n: int) -> int
    decreases n,
{
    if n <= 0 {
        0
    } else {
        total_pairs_spec(bullets, enemies, n - 1) + bullet_hit_count_spec(
            bullets,
            enemies[n - 1],
            bullets.len() as int,
        )
    }
}

/// The total pair count never falls as more enemies are considered.
pub proof fn lemma_total_pairs_nonneg(bullets: Seq<Bullet>, enemies: Seq<Enemy>, n: int)
    requires
        0 <= n,
    ensures
        0 <= total_pairs_spec(bullets, enemies, n),
    decreases n,
{
    if n > 0 {
        lemma_total_pairs_nonneg(bullets, enemies, n - 1);
        lemma_bullet_hit_count_bounds(bullets, enemies[n - 1], bullets.len() as int);
    }
}

/// The enemies that survive the projectile pass: those no projectile
/// touched, in their original order.
pub open spec fn surviving_enemies_spec(bullets: Seq<Bullet>, enemies: Seq<Enemy>, n: int) -> Seq<
    Enemy,
>
    decreases n,
{
    if n <= 0 {
        Seq::empty()
    } else {
        let pre = surviving_enemies_spec(bullets, enemies, n - 1);
        if bullet_hit_count_spec(bullets, enemies[n - 1], bullets.len() as int) == 0 {
            pre.push(enemies[n - 1])
        } else {
            pre
        }
    }
}

/// Survivors came from the original population, which never grows.
pub proof fn lemma_surviving_enemies(bullets: Seq<Bullet>, enemies: Seq<Enemy>, n: int)
    requires
        0 <= n <= enemies.len(),
    ensures
        surviving_enemies_spec(bullets, enemies, n).len() <= n,
        forall|j: int|
            0 <= j < surviving_enemies_spec(bullets, enemies, n).len() ==> exists|i: int|
                0 <= i < n && #[trigger] surviving_enemies_spec(bullets, enemies, n)[j]
                    == enemies[i],
    decreases n,
{
    if n > 0 {
        lemma_surviving_enemies(bullets, enemies, n - 1);
        let pre = surviving_enemies_spec(bullets, enemies, n - 1);
        let cur = surviving_enemies_spec(bullets, enemies, n);
        assert forall|j: int| 0 <= j < cur.len() implies exists|i: int|
            0 <= i < n && #[trigger] cur[j] == enemies[i] by {
            if j < pre.len() {
                let i0 = choose|i: int| 0 <= i < n - 1 && #[trigger] pre[j] == enemies[i];
                assert(0 <= i0 < n && cur[j] == enemies[i0]);
            } else {
                assert(cur[j] == enemies[n - 1]);
            }
        }
    }
}

/// `u32` score addition with saturation at the top.
pub open spec fn sat_score_spec(base: int, add: int) -> int {
    if base + add > u32::MAX {
        u32::MAX as int
    } else {
        base + add
    }
}

fn count_bullets_hitting(bullets: &Vec<Bullet>, e: &Enemy) -> (n: usize)
    requires
        forall|k: int| 0 <= k < bullets@.len() ==> (#[trigger] bullets@[k]).wf(),
        e.wf(),
    ensures
        n == bullet_hit_count_spec(bullets@, *e, bullets@.len() as int),
        n <= bullets@.len(),
{
    let mut count: usize = 0;
    let mut i: usize = 0;
    while i < bullets.len()
        invariant
            i <= bullets@.len(),
            forall|k: int| 0 <= k < bullets@.len() ==> (#[trigger] bullets@[k]).wf(),
            e.wf(),
            count == bullet_hit_count_spec(bullets@, *e, i as int),
            count <= i,
        decreases bullets@.len() - i,
    {
        let b = bullets[i];
        if -BULLET_BOX_MU <= b.x_mu - e.x_mu && b.x_mu - e.x_mu <= BULLET_BOX_MU && -BULLET_BOX_MU
            <= b.y_mu - e.y_mu && b.y_mu - e.y_mu <= BULLET_BOX_MU {
            count = count + 1;
        }
        i = i + 1;
    }
    count
}

/// The projectile-enemy pass: every contact pair scores one point
/// (saturating at the score type's top), and every touched enemy is
/// removed by the end of the tick.
pub fn resolve_bullet_hits(bullets: &Vec<Bullet>, enemies: &mut Vec<Enemy>, score: u32) -> (ns: u32)
    requires
        forall|k: int| 0 <= k < bullets@.len() ==> (#[trigger] bullets@[k]).wf(),
        forall|k: int| 0 <= k < old(enemies)@.len() ==> (#[trigger] old(enemies)@[k]).wf(),
    ensures
        final(enemies)@ == surviving_enemies_spec(
            bullets@,
            old(enemies)@,
            old(enemies)@.len() as int,
        ),
        final(enemies)@.len() <= old(enemies)@.len(),
        forall|k: int| 0 <= k < final(enemies)@.len() ==> (#[trigger] final(enemies)@[k]).wf(),
        ns == sat_score_spec(
            score as int,
            total_pairs_spec(bullets@, old(enemies)@, old(enemies)@.len() as int),
        ),
{
    let ghost orig = enemies@;
    let mut survivors: Vec<Enemy> = Vec::new();
    let mut sc: u32 = score;
    let mut i: usize = 0;
    while i < enemies.len()
        invariant
            i <= enemies@.len(),
            enemies@ == orig,
            forall|k: int| 0 <= k < bullets@.len() ==> (#[trigger] bullets@[k]).wf(),
            forall|k: int| 0 <= k < orig.len() ==> (#[trigger] orig[k]).wf(),
            survivors@ == surviving_enemies_spec(bullets@, orig, i as int),
            sc == sat_score_spec(score as int, total_pairs_spec(bullets@, orig, i as int)),
        decreases enemies@.len() - i,
    {
        proof {
            lemma_total_pairs_nonneg(bullets@, orig, i as int);
        }
        let e = enemies[i];
        let pc = count_bullets_hitting(bullets, &e);
        if pc == 0 {
            survivors.push(e);
        }
        if (pc as u64) > (u32::MAX - sc) as u64 {
            sc = u32::MAX;
        } else {
            sc = sc + (pc as u32);
        }
        i = i + 1;
    }
    proof {
        lemma_surviving_enemies(bullets@, orig, orig.len() as int);
        assert forall|k: int| 0 <= k < survivors@.len() implies (#[trigger] survivors@[k]).wf() by {
            let i0 = choose|i0: int| 0 <= i0 < orig.len() && #[trigger] survivors@[k] == orig[i0];
        }
    }
    *enemies = survivors;
    sc
}

/// A projectile at an enemy's exact position scores exactly one point
/// and leaves no survivor: the single pair is counted once and the
/// enemy is removed by the end of the tick.
pub proof fn lemma_point_blank_hit(b: Bullet, e: Enemy)
    requires
        b.x_mu == e.x_mu,
        b.y_mu == e.y_mu,
    ensures
        total_pairs_spec(seq![b], seq![e], 1) == 1,
        surviving_enemies_spec(seq![b], seq![e], 1) == Seq::<Enemy>::empty(),
{
    let bs = seq![b];
    let es = seq![e];
    assert(bullet_hits_enemy_spec(bs[0], es[0]));
    assert(bullet_hit_count_spec(bs, es[0], 0) == 0);
    assert(bullet_hit_count_spec(bs, es[0], 1) == 1);
    assert(total_pairs_spec(bs, es, 0) == 0);
    assert(total_pairs_spec(bs, es, 1) == 1);
    assert(surviving_enemies_spec(bs, es, 0) == Seq::<Enemy>::empty());
    assert(surviving_enemies_spec(bs, es, 1) == Seq::<Enemy>::empty());
}

} // verus!
