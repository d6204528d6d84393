//! Projectiles: spawned at the vehicle toward an aim point, flying in a
//! straight line for a fixed lifetime.

use vstd::prelude::*;
use crate::fixed::{norm_x_spec, norm_y_spec, normalize_milli, scaled_delta};
use crate::physics::{clamp_i64, clamp_spec, sin_milli, cos_milli, sin_urad_spec, cos_urad_spec, POS_LIMIT_MU, TAU_URAD};

verus! {

/// Projectile speed, world units per second.
pub const BULLET_SPEED_UNITS: i64 = 2_000;

/// Projectile lifetime, milliseconds.
pub const BULLET_LIFE_MS: i64 = 1_000;

/// Cap on the stored projectile age, so ticking it can never overflow.
pub const BULLET_AGE_SAT_MS: i64 = 2_000_000;

/// One projectile.
#[derive(Clone, Copy, PartialEq, Eq, Structural, Debug)]
pub struct Bullet {
    /// World x position, milli-units.
    pub x_mu: i64,
    /// World y position, milli-units.
    pub y_mu: i64,
    /// Unit direction scaled by 1000, x component.
    pub dir_x_milli: i64,
    /// Unit direction scaled by 1000, y component.
    pub dir_y_milli: i64,
    /// Milliseconds since the projectile was fired.
    pub age_ms: i64,
}

impl Bullet {
    /// State bounds every projectile satisfies.
    pub open spec fn wf(&self) -> bool {
        &&& -POS_LIMIT_MU <= self.x_mu <= POS_LIMIT_MU
        &&& -POS_LIMIT_MU <= self.y_mu <= POS_LIMIT_MU
        &&& -1000 <= self.dir_x_milli <= 1000
        &&& -1000 <= self.dir_y_milli <= 1000
        &&& 0 <= self.age_ms <= BULLET_AGE_SAT_MS
    }
}

/// What firing produces, as a function of the vehicle's position and
/// heading and the aim point: the projectile starts at the vehicle,
/// aged zero, aimed along the normalized direction toward the aim
/// point, or along the vehicle's forward vector when the aim point is
/// exactly the vehicle's position.
pub open spec fn spawned_bullet_rel(
    vx: int,
    vy: int,
    aim_x: int,
    aim_y: int,
    heading: int,
    b: Bullet,
) -> bool {
    &&& b.x_mu == vx && b.y_mu == vy && b.age_ms == 0
    &&& (aim_x == vx && aim_y == vy ==> b.dir_x_milli == -sin_urad_spec(heading)
        && b.dir_y_milli == cos_urad_spec(heading))
    &&& (!(aim_x == vx && aim_y == vy) ==> b.dir_x_milli == norm_x_spec(aim_x - vx, aim_y - vy)
        && b.dir_y_milli == norm_y_spec(aim_x - vx, aim_y - vy))
}

/// How one tick of flight changes a projectile: the direction is kept,
/// the age advances (saturating), and the position integrates along
/// the direction, clamped to the playfield.
pub open spec fn bullet_flown_rel(pre: Bullet, post: Bullet, dt: int) -> bool {
    &&& post.dir_x_milli == pre.dir_x_milli
    &&& post.dir_y_milli == pre.dir_y_milli
    &&& post.age_ms == (if pre.age_ms + dt > BULLET_AGE_SAT_MS {
        BULLET_AGE_SAT_MS as int
    } else {
        pre.age_ms + dt
    })
    &&& post.x_mu == clamp_spec(
        pre.x_mu + pre.dir_x_milli * BULLET_SPEED_UNITS * dt / 1000,
        -POS_LIMIT_MU as int,
        POS_LIMIT_MU as int,
    )
    &&& post.y_mu == clamp_spec(
        pre.y_mu + pre.dir_y_milli * BULLET_SPEED_UNITS * dt / 1000,
        -POS_LIMIT_MU as int,
        POS_LIMIT_MU as int,
    )
}

/// Fires a projectile from the vehicle's position toward the aim
/// point.  With no usable aim direction (the aim point is exactly the
/// vehicle's position), the projectile flies along the vehicle's
/// forward vector instead of propagating an undefined direction.
pub fn spawn_bullet(vx: i64, vy: i64, aim_x: i64, aim_y: i64, heading_urad: i64) -> (b: Bullet)
    requires
        -POS_LIMIT_MU <= vx <= POS_LIMIT_MU,
        -POS_LIMIT_MU <= vy <= POS_LIMIT_MU,
        -POS_LIMIT_MU <= aim_x <= POS_LIMIT_MU,
        -POS_LIMIT_MU <= aim_y <= POS_LIMIT_MU,
        0 <= heading_urad < TAU_URAD,
    ensures
        b.wf(),
        spawned_bullet_rel(
            vx as int,
            vy as int,
            aim_x as int,
            aim_y as int,
            heading_urad as int,
            b,
        ),
{
    let dx = aim_x - vx;
    let dy = aim_y - vy;
    let (dir_x_milli, dir_y_milli): (i64, i64) = if dx == 0 && dy == 0 {
        let s = sin_milli(heading_urad);
        let c = cos_milli(heading_urad);
        (-s, c)
    } else {
        normalize_milli(dx, dy)
    };
    Bullet { x_mu: vx, y_mu: vy, dir_x_milli, dir_y_milli, age_ms: 0 }
}

/// Moves a projectile for one tick and ages it, both pinned exactly.
pub fn update_bullet(b: &mut Bullet, dt_ms: i64)
    requires
        old(b).wf(),
        0 <= dt_ms <= 1000,
    ensures
        final(b).wf(),
        bullet_flown_rel(*old(b), *final(b), dt_ms as int),
{
    let step_x = scaled_delta(b.dir_x_milli, BULLET_SPEED_UNITS, dt_ms, 1000);
    let step_y = scaled_delta(b.dir_y_milli, BULLET_SPEED_UNITS, dt_ms, 1000);
    b.x_mu = clamp_i64(b.x_mu + step_x, -POS_LIMIT_MU, POS_LIMIT_MU);
    b.y_mu = clamp_i64(b.y_mu + step_y, -POS_LIMIT_MU, POS_LIMIT_MU);
    b.age_ms = if b.age_ms + dt_ms > BULLET_AGE_SAT_MS {
        BULLET_AGE_SAT_MS
    } else {
        b.age_ms + dt_ms
    };
}

/// The projectiles kept by the lifetime sweep: those whose age has not
/// passed [`BULLET_LIFE_MS`], in their original order.
pub open spec fn kept_bullets_spec(s: Seq<Bullet>, n: int) -> Seq<Bullet>
    decreases n,
{
    if n <= 0 {
        Seq::empty()
    } else {
        let pre = kept_bullets_spec(s, n - 1);
        if s[n - 1].age_ms <= BULLET_LIFE_MS {
            pre.push(s[n - 1])
        } else {
            pre
        }
    }
}

/// Every projectile the sweep keeps is young enough, came from the
/// original list, and the sweep never grows the list.
pub proof fn lemma_kept_bullets(s: Seq<Bullet>, n: int)
    requires
        0 <= n <= s.len(),
    ensures
        kept_bullets_spec(s, n).len() <= n,
        forall|j: int|
            0 <= j < kept_bullets_spec(s, n).len() ==> (#[trigger] kept_bullets_spec(
                s,
                n,
            )[j]).age_ms <= BULLET_LIFE_MS,
        forall|j: int|
            0 <= j < kept_bullets_spec(s, n).len() ==> exists|i: int|
                0 <= i < n && #[trigger] kept_bullets_spec(s, n)[j] == s[i],
    decreases n,
{
    if n > 0 {
        lemma_kept_bullets(s, n - 1);
        let pre = kept_bullets_spec(s, n - 1);
        let cur = kept_bullets_spec(s, n);
        assert forall|j: int| 0 <= j < cur.len() implies exists|i: int|
            0 <= i < n && #[trigger] cur[j] == s[i] by {
            if j < pre.len() {
                let i0 = choose|i: int| 0 <= i < n - 1 && #[trigger] pre[j] == s[i];
                assert(0 <= i0 < n && cur[j] == s[i0]);
            } else {
                assert(cur[j] == s[n - 1]);
            }
        }
    }
}

/// Removes every projectile older than its lifetime, keeping the
/// others in order.
pub fn despawn_expired_bullets(bullets: &mut Vec<Bullet>)
    requires
        forall|k: int| 0 <= k < old(bullets)@.len() ==> (#[trigger] old(bullets)@[k]).wf(),
    ensures
        final(bullets)@ == kept_bullets_spec(old(bullets)@, old(bullets)@.len() as int),
        final(bullets)@.len() <= old(bullets)@.len(),
        forall|k: int| 0 <= k < final(bullets)@.len() ==> (#[trigger] final(bullets)@[k]).wf(),
{
    let ghost orig = bullets@;
    let mut kept: Vec<Bullet> = Vec::new();
    let mut i: usize = 0;
    while i < bullets.len()
        invariant
            i <= bullets@.len(),
            bullets@ == orig,
            forall|k: int| 0 <= k < orig.len() ==> (#[trigger] orig[k]).wf(),
            kept@ == kept_bullets_spec(orig, i as int),
        decreases bullets@.len() - i,
    {
        let b = bullets[i];
        if b.age_ms <= BULLET_LIFE_MS {
            kept.push(b);
        }
        i = i + 1;
    }
    proof {
        lemma_kept_bullets(orig, orig.len() as int);
        assert forall|k: int| 0 <= k < kept@.len() implies (#[trigger] kept@[k]).wf() by {
            let i0 = choose|i0: int| 0 <= i0 < orig.len() && #[trigger] kept@[k] == orig[i0];
        }
    }
    *bullets = kept;
}

} // verus!
