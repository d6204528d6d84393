//! Enemy state and pursuit steering.
//!
//! Every live enemy walks toward the vehicle each tick, with a small
//! random jitter and a periodic randomized overshoot that keeps enemies
//! which have overtaken the vehicle from clustering statically.

use vstd::prelude::*;
use crate::fixed::{
    lemma_sqrt_floor_bracket, norm_x_spec, norm_y_spec, normalize_milli, scaled_delta, sqrt_floor,
};
use crate::physics::{clamp_i64, clamp_spec, POS_LIMIT_MU};
use crate::rng::SimRng;

verus! {

/// Enemy walking speed, world units per second.
pub const ZOMBIE_SPEED_UNITS: i64 = 255;

/// An enemy more than this far ahead of the vehicle may overshoot its
/// target, milli-units.
pub const OVERSHOOT_AHEAD_MU: i64 = 500_000;

/// Largest per-axis displacement per millisecond of frame time: the
/// direction plus jitter is at most 1.5 (scaled), times the walking
/// speed of 255, floored, so 383 covers the rounding on negatives.
pub const MAX_ENEMY_STEP_PER_MS: i64 = 383;

/// One hostile agent.
#[derive(Clone, Copy, PartialEq, Eq, Structural, Debug)]
pub struct Enemy {
    /// World x position, milli-units.
    pub x_mu: i64,
    /// World y position, milli-units.
    pub y_mu: i64,
    /// Sprite index: 30..=39 for the common variants, 40..=43 for the
    /// heavy ones (cosmetic only).
    pub sprite: u32,
}

impl Enemy {
    /// State bounds every enemy satisfies.
    pub open spec fn wf(&self) -> bool {
        &&& -POS_LIMIT_MU <= self.x_mu <= POS_LIMIT_MU
        &&& -POS_LIMIT_MU <= self.y_mu <= POS_LIMIT_MU
        &&& 30 <= self.sprite <= 43
    }
}

/// One pursuit step, as a function of the drawn target height `ty` and
/// jitter `(jx, jy)`: the target is the vehicle, with `ty` pushed up to
/// 1500 units further ahead only when the enemy is far past it; the
/// enemy walks along the normalized direction plus jitter, scaled by
/// its speed and the frame delta, clamped to the playfield; exactly at
/// the target it has no direction and stays put.
pub open spec fn enemy_step_model(
    pre: Enemy,
    post: Enemy,
    vx: int,
    vy: int,
    dt: int,
    ty: int,
    jx: int,
    jy: int,
) -> bool {
    &&& (ty == vy || (pre.y_mu - vy > OVERSHOOT_AHEAD_MU && vy + 500_000 <= ty <= vy + 1_499_999))
    &&& -500 <= jx <= 499
    &&& -500 <= jy <= 499
    &&& ({
        let dx = vx - pre.x_mu;
        let dy = ty - pre.y_mu;
        if dx == 0 && dy == 0 {
            post == pre
        } else {
            &&& post.x_mu == clamp_spec(
                pre.x_mu + (norm_x_spec(dx, dy) + jx) * ZOMBIE_SPEED_UNITS * dt / 1000,
                -POS_LIMIT_MU as int,
                POS_LIMIT_MU as int,
            )
            &&& post.y_mu == clamp_spec(
                pre.y_mu + (norm_y_spec(dx, dy) + jy) * ZOMBIE_SPEED_UNITS * dt / 1000,
                -POS_LIMIT_MU as int,
                POS_LIMIT_MU as int,
            )
            &&& post.sprite == pre.sprite
        }
    })
}

/// Whether `post` is one pursuit step from `pre`, for some drawn
/// overshoot and jitter.
pub open spec fn stepped_enemy(pre: Enemy, post: Enemy, vx: int, vy: int, dt: int) -> bool {
    exists|ty: int, jx: int, jy: int| enemy_step_model(pre, post, vx, vy, dt, ty, jx, jy)
}

/// Steers one enemy toward the vehicle at `(vx, vy)` for one tick.
///
/// The result is exactly one instance of [`enemy_step_model`]: the
/// randomness only picks the overshoot and the jitter, never the shape
/// of the update.  In every case the per-axis displacement is bounded
/// by `MAX_ENEMY_STEP_PER_MS * dt_ms` and the position stays inside
/// the playfield box.
pub fn enemy_step(e: &mut Enemy, vx: i64, vy: i64, dt_ms: i64, rng: &mut SimRng)
    requires
        old(e).wf(),
        -POS_LIMIT_MU <= vx <= POS_LIMIT_MU,
        -POS_LIMIT_MU <= vy <= POS_LIMIT_MU,
        0 <= dt_ms <= 1000,
    ensures
        final(e).wf(),
        stepped_enemy(*old(e), *final(e), vx as int, vy as int, dt_ms as int),
        final(e).sprite == old(e).sprite,
        old(e).x_mu == vx && old(e).y_mu == vy ==> *final(e) == *old(e),
        -MAX_ENEMY_STEP_PER_MS * dt_ms <= final(e).x_mu - old(e).x_mu <= MAX_ENEMY_STEP_PER_MS
            * dt_ms,
        -MAX_ENEMY_STEP_PER_MS * dt_ms <= final(e).y_mu - old(e).y_mu <= MAX_ENEMY_STEP_PER_MS
            * dt_ms,
{
    let mut ty: i64 = vy;
    if e.y_mu - vy > OVERSHOOT_AHEAD_MU && rng.per_mille() >= 500 {
        ty = ty + rng.next_in(500_000, 1_499_999);
    }

    let dx = vx - e.x_mu;
    let dy = ty - e.y_mu;
    if dx == 0 && dy == 0 {
        proof {
            assert(enemy_step_model(
                *old(e),
                *e,
                vx as int,
                vy as int,
                dt_ms as int,
                ty as int,
                0,
                0,
            ));
        }
        return ;
    }
    let (nx, ny) = normalize_milli(dx, dy);
    let jx = rng.next_in(-500, 499);
    let jy = rng.next_in(-500, 499);

    let step_x = scaled_delta(nx + jx, ZOMBIE_SPEED_UNITS, dt_ms, 1000);
    let step_y = scaled_delta(ny + jy, ZOMBIE_SPEED_UNITS, dt_ms, 1000);
    proof {
        lemma_enemy_step_bound((nx + jx) as int, dt_ms as int);
        lemma_enemy_step_bound((ny + jy) as int, dt_ms as int);
    }
    let x2 = clamp_i64(e.x_mu + step_x, -POS_LIMIT_MU, POS_LIMIT_MU);
    let y2 = clamp_i64(e.y_mu + step_y, -POS_LIMIT_MU, POS_LIMIT_MU);
    proof {
        lemma_clamp_within(e.x_mu as int, step_x as int, MAX_ENEMY_STEP_PER_MS * dt_ms);
        lemma_clamp_within(e.y_mu as int, step_y as int, MAX_ENEMY_STEP_PER_MS * dt_ms);
    }
    e.x_mu = x2;
    e.y_mu = y2;
    proof {
        assert(enemy_step_model(
            *old(e),
            *e,
            vx as int,
            vy as int,
            dt_ms as int,
            ty as int,
            jx as int,
            jy as int,
        ));
    }
}

/// A direction-plus-jitter component of at most 1.5 (scaled) moves the
/// enemy by at most [`MAX_ENEMY_STEP_PER_MS`] per millisecond.
proof fn lemma_enemy_step_bound(c: int, dt: int)
    requires
        -1500 <= c <= 1500,
        0 <= dt <= 1000,
    ensures
        -MAX_ENEMY_STEP_PER_MS * dt <= c * ZOMBIE_SPEED_UNITS * dt / 1000 <= MAX_ENEMY_STEP_PER_MS
            * dt,
{
    let prod = c * ZOMBIE_SPEED_UNITS * dt;
    assert(-382_500 * dt <= prod <= 382_500 * dt) by (nonlinear_arith)
        requires
            -1500 <= c <= 1500,
            0 <= dt,
            prod == c * ZOMBIE_SPEED_UNITS * dt,
    ;
    vstd::arithmetic::div_mod::lemma_div_is_ordered(prod, 1000 * (383 * dt), 1000);
    vstd::arithmetic::div_mod::lemma_div_is_ordered(1000 * (-383 * dt), prod, 1000);
    vstd::arithmetic::div_mod::lemma_div_multiples_vanish(383 * dt, 1000);
    vstd::arithmetic::div_mod::lemma_div_multiples_vanish(-383 * dt, 1000);
}

/// Clamping a bounded step into the playfield box never moves a point
/// that started inside the box by more than the step bound.
proof fn lemma_clamp_within(p: int, step: int, bound: int)
    requires
        -POS_LIMIT_MU <= p <= POS_LIMIT_MU,
        -bound <= step <= bound,
        0 <= bound,
    ensures
        -bound <= clamp_spec(p + step, -POS_LIMIT_MU as int, POS_LIMIT_MU as int) - p <= bound,
{
}

/// Along the dominant axis, the normalized direction outweighs the
/// jitter: the step has the sign of the target offset and magnitude at
/// least `52 * dt`.
proof fn lemma_dominant_component(d: int, o: int, j: int, dt: int)
    requires
        d * d >= o * o,
        d != 0,
        -500 <= j <= 499,
        1 <= dt <= 1000,
    ensures
        ({
            let len = sqrt_floor(d * d + o * o);
            let n = if d >= 0 {
                d * 1000 / len
            } else {
                -((-d) * 1000 / len)
            };
            let step = (n + j) * ZOMBIE_SPEED_UNITS * dt / 1000;
            &&& (d > 0 ==> step >= 52 * dt)
            &&& (d < 0 ==> step <= -52 * dt)
        }),
{
    let s = d * d + o * o;
    assert(s >= 1) by (nonlinear_arith)
        requires
            d != 0,
            s == d * d + o * o,
    ;
    lemma_sqrt_floor_bracket(s);
    let len = sqrt_floor(s);
    assert(len >= 1) by (nonlinear_arith)
        requires
            len >= 0,
            (len + 1) * (len + 1) > s,
            len * len <= s,
            s >= 1,
    ;
    let a = if d >= 0 {
        d
    } else {
        -d
    };
    assert(a * a == d * d && a >= 1) by (nonlinear_arith)
        requires
            d != 0,
            a == (if d >= 0 { d } else { -d }),
    ;
    assert(707 * len <= 1000 * a) by (nonlinear_arith)
        requires
            len >= 0,
            a >= 1,
            len * len <= s,
            s == d * d + o * o,
            o * o <= d * d,
            a * a == d * d,
    ;
    let n_mag = a * 1000 / len;
    assert(n_mag >= 707) by {
        vstd::arithmetic::div_mod::lemma_div_is_ordered(len * 707, a * 1000, len);
        vstd::arithmetic::div_mod::lemma_div_multiples_vanish(707, len);
    }
    let comp_pos = n_mag + j;
    assert(comp_pos >= 207);
    assert(comp_pos * ZOMBIE_SPEED_UNITS * dt >= 1000 * (52 * dt)) by (nonlinear_arith)
        requires
            comp_pos >= 207,
            dt >= 1,
    ;
    let comp_neg = -n_mag + j;
    assert(comp_neg <= -208);
    assert(comp_neg * ZOMBIE_SPEED_UNITS * dt <= 1000 * (-52 * dt)) by (nonlinear_arith)
        requires
            comp_neg <= -208,
            dt >= 1,
    ;
    if d > 0 {
        vstd::arithmetic::div_mod::lemma_div_is_ordered(
            1000 * (52 * dt),
            comp_pos * ZOMBIE_SPEED_UNITS * dt,
            1000,
        );
        vstd::arithmetic::div_mod::lemma_div_multiples_vanish(52 * dt, 1000);
    } else {
        vstd::arithmetic::div_mod::lemma_div_is_ordered(
            comp_neg * ZOMBIE_SPEED_UNITS * dt,
            1000 * (-52 * dt),
            1000,
        );
        vstd::arithmetic::div_mod::lemma_div_multiples_vanish(-52 * dt, 1000);
    }
}

/// Pursuit makes ground: when the enemy is not far enough ahead for an
/// overshoot, is not exactly at the vehicle, the frame delta is at
/// least one millisecond, and it has a tile's margin to the playfield
/// edge, the step moves it strictly toward the vehicle along the
/// dominant axis, by at least `52 * dt` milli-units.
pub proof fn lemma_pursuit_moves(
    pre: Enemy,
    post: Enemy,
    vx: int,
    vy: int,
    dt: int,
    ty: int,
    jx: int,
    jy: int,
)
    requires
        enemy_step_model(pre, post, vx, vy, dt, ty, jx, jy),
        pre.y_mu - vy <= OVERSHOOT_AHEAD_MU,
        !(pre.x_mu == vx && pre.y_mu == vy),
        1 <= dt <= 1000,
        -POS_LIMIT_MU + 400_000 <= pre.x_mu <= POS_LIMIT_MU - 400_000,
        -POS_LIMIT_MU + 400_000 <= pre.y_mu <= POS_LIMIT_MU - 400_000,
    ensures
        ({
            let dx = vx - pre.x_mu;
            let dy = vy - pre.y_mu;
            &&& (dx * dx >= dy * dy && dx > 0 ==> post.x_mu - pre.x_mu >= 52 * dt)
            &&& (dx * dx >= dy * dy && dx < 0 ==> pre.x_mu - post.x_mu >= 52 * dt)
            &&& (dy * dy >= dx * dx && dy > 0 ==> post.y_mu - pre.y_mu >= 52 * dt)
            &&& (dy * dy >= dx * dx && dy < 0 ==> pre.y_mu - post.y_mu >= 52 * dt)
        }),
{
    assert(ty == vy);
    let dx = vx - pre.x_mu;
    let dy = vy - pre.y_mu;
    let len = sqrt_floor(dx * dx + dy * dy);
    if dx * dx >= dy * dy && dx != 0 {
        lemma_dominant_component(dx, dy, jx, dt);
        let step = (norm_x_spec(dx, dy) + jx) * ZOMBIE_SPEED_UNITS * dt / 1000;
        lemma_enemy_step_bound_general(norm_x_spec(dx, dy) + jx, dt, dx, dy, jx);
        assert(post.x_mu == pre.x_mu + step);
    }
    if dy * dy >= dx * dx && dy != 0 {
        lemma_dominant_component(dy, dx, jy, dt);
        assert(dy * dy + dx * dx == dx * dx + dy * dy);
        let step = (norm_y_spec(dx, dy) + jy) * ZOMBIE_SPEED_UNITS * dt / 1000;
        lemma_enemy_step_bound_general(norm_y_spec(dx, dy) + jy, dt, dx, dy, jy);
        assert(post.y_mu == pre.y_mu + step);
    }
}

/// The step from a normalized component plus jitter stays within the
/// per-axis bound, so a point with a margin to the box edge is never
/// clamped.
proof fn lemma_enemy_step_bound_general(c: int, dt: int, dx: int, dy: int, j: int)
    requires
        1 <= dt <= 1000,
        -500 <= j <= 499,
        !(dx == 0 && dy == 0),
        c == norm_x_spec(dx, dy) + j || c == norm_y_spec(dx, dy) + j,
    ensures
        -MAX_ENEMY_STEP_PER_MS * dt <= c * ZOMBIE_SPEED_UNITS * dt / 1000 <= MAX_ENEMY_STEP_PER_MS
            * dt,
{
    lemma_norm_bounds(dx, dy);
    lemma_enemy_step_bound(c, dt);
}

/// The normalized components stay within the scaled unit interval.
proof fn lemma_norm_bounds(dx: int, dy: int)
    requires
        !(dx == 0 && dy == 0),
    ensures
        -1000 <= norm_x_spec(dx, dy) <= 1000,
        -1000 <= norm_y_spec(dx, dy) <= 1000,
{
    let s = dx * dx + dy * dy;
    assert(s >= 1) by (nonlinear_arith)
        requires
            !(dx == 0 && dy == 0),
            s == dx * dx + dy * dy,
    ;
    lemma_sqrt_floor_bracket(s);
    let len = sqrt_floor(s);
    let ax = if dx >= 0 {
        dx
    } else {
        -dx
    };
    let ay = if dy >= 0 {
        dy
    } else {
        -dy
    };
    assert(ax * ax == dx * dx && ay * ay == dy * dy) by (nonlinear_arith)
        requires
            ax == (if dx >= 0 { dx } else { -dx }),
            ay == (if dy >= 0 { dy } else { -dy }),
    ;
    assert(len >= ax && len >= ay && len >= 1) by (nonlinear_arith)
        requires
            len >= 0,
            len * len <= s,
            (len + 1) * (len + 1) > s,
            s == dx * dx + dy * dy,
            s >= 1,
            ax * ax == dx * dx,
            ay * ay == dy * dy,
            ax >= 0,
            ay >= 0,
    ;
    assert(ax * 1000 / len <= 1000 && ay * 1000 / len <= 1000) by {
        assert(ax * 1000 <= len * 1000 && ay * 1000 <= len * 1000) by (nonlinear_arith)
            requires
                len >= ax,
                len >= ay,
        ;
        vstd::arithmetic::div_mod::lemma_div_is_ordered(ax * 1000, len * 1000, len);
        vstd::arithmetic::div_mod::lemma_div_is_ordered(ay * 1000, len * 1000, len);
        vstd::arithmetic::div_mod::lemma_div_multiples_vanish(1000, len);
    }
    assert(ax * 1000 / len >= 0 && ay * 1000 / len >= 0) by {
        vstd::arithmetic::div_mod::lemma_div_is_ordered(0, ax * 1000, len);
        vstd::arithmetic::div_mod::lemma_div_is_ordered(0, ay * 1000, len);
        vstd::arithmetic::div_mod::lemma_basic_div_specific_divisor(len);
    }
}

} // verus!
