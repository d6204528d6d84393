//! Vehicle physics: speed, steering, turbo and position integration.
//!
//! Angles are in micro-radians in `[0, TAU_URAD)`; direction vectors are
//! unit vectors scaled by 1000, produced by a fixed-point sine
//! approximation.  Speeds are in milli-units per second and frame deltas
//! in milliseconds.  Every update has an exact specification mirror, so
//! the executable step is pinned to the mathematical model.

use vstd::prelude::*;
use crate::fixed::{div_floor_i64, div_ceil_i64};
use crate::tiles::TileIndex;
use crate::road::TILE_MU;

verus! {

/// Top vehicle speed, milli-units per second.
pub const MAX_SPEED_MU: i64 = 40_000;

/// Lowest (reverse) vehicle speed: half the top speed, backwards.
pub const MIN_SPEED_MU: i64 = -20_000;

/// Forward thrust per millisecond of frame time.
pub const THRUST_PER_MS: i64 = 20;

/// Coasting friction per millisecond of frame time.
pub const FRICTION_PER_MS: i64 = 20;

/// Braking friction per millisecond (1.2 times coasting friction).
pub const BRAKE_FRICTION_PER_MS: i64 = 24;

/// Speeds at or below this magnitude snap to zero while braking.
pub const BRAKE_SNAP_MU: i64 = 10_000;

/// Speeds at or below this magnitude snap to zero while coasting.
pub const COAST_SNAP_MU: i64 = 5_000;

/// Additive turbo boost, milli-units per second.
pub const TURBO_BOOST_MU: i64 = 60_000;

/// Cooldown before the turbo can be triggered again, milliseconds.
pub const TURBO_INTERVAL_MS: i64 = 5_000;

/// Length of the boost window after a turbo reset, milliseconds.
pub const TURBO_WINDOW_MS: i64 = 200;

/// Cap on the stored turbo clock, so ticking it can never overflow.
pub const TURBO_CLOCK_SAT_MS: i64 = 3_600_000_000;

/// Angular step per tick while steering (fixed-timestep integration of
/// the turn rate), micro-radians.
pub const TURN_STEP_URAD: i64 = 33_333;

/// Longest frame delta the simulation accepts, milliseconds.
pub const MAX_DT_MS: i64 = 1_000;

/// Half turn in micro-radians.
pub const PI_URAD: i64 = 3_141_592;

/// Full turn in micro-radians.
pub const TAU_URAD: i64 = 6_283_185;

/// Quarter turn in micro-radians.
pub const HALF_PI_URAD: i64 = 1_570_796;

/// The playfield is a bounded box; integration clamps positions to it.
/// (About ten million world units: far beyond the 48,000-unit track.)
pub const POS_LIMIT_MU: i64 = 10_000_000_000;

/// The player's directional input for one tick.
#[derive(Clone, Copy, PartialEq, Eq, Structural, Debug)]
pub struct Controls {
    /// Accelerate (W / Up).
    pub forward: bool,
    /// Steer left (A / Left).
    pub left: bool,
    /// Brake / reverse (S / Down).
    pub back: bool,
    /// Steer right (D / Right).
    pub right: bool,
}

/// Clamps `v` into `[lo, hi]`.
pub open spec fn clamp_spec(v: int, lo: int, hi: int) -> int {
    if v < lo {
        lo
    } else if v > hi {
        hi
    } else {
        v
    }
}

/// Executable twin of [`clamp_spec`].
pub fn clamp_i64(v: i64, lo: i64, hi: i64) -> (r: i64)
    requires
        lo <= hi,
    ensures
        r == clamp_spec(v as int, lo as int, hi as int),
{
    if v < lo {
        lo
    } else if v > hi {
        hi
    } else {
        v
    }
}

/// Fixed-point sine on the half turn `[0, PI_URAD]`, scaled by 1000,
/// using Bhaskara's rational approximation.
pub open spec fn sin_half_spec(x: int) -> int {
    let p = x * (PI_URAD - x);
    16000 * p / (5 * PI_URAD * PI_URAD - 4 * p)
}

/// Fixed-point sine on the full turn `[0, TAU_URAD)`, scaled by 1000.
pub open spec fn sin_urad_spec(a: int) -> int {
    if a <= PI_URAD {
        sin_half_spec(a)
    } else {
        -sin_half_spec(a - PI_URAD)
    }
}

/// Adds a quarter turn, wrapping at the full turn.
pub open spec fn quarter_ahead_spec(a: int) -> int {
    if a + HALF_PI_URAD >= TAU_URAD {
        a + HALF_PI_URAD - TAU_URAD
    } else {
        a + HALF_PI_URAD
    }
}

/// Fixed-point cosine on the full turn `[0, TAU_URAD)`, scaled by 1000.
pub open spec fn cos_urad_spec(a: int) -> int {
    sin_urad_spec(quarter_ahead_spec(a))
}

proof fn lemma_sin_half_bounds(x: int)
    requires
        0 <= x <= PI_URAD,
    ensures
        0 <= sin_half_spec(x) <= 1000,
{
    let p = x * (PI_URAD - x);
    assert(0 <= p && 4 * p <= PI_URAD * PI_URAD) by (nonlinear_arith)
        requires
            0 <= x <= PI_URAD,
            p == x * (PI_URAD - x),
    ;
    let den = 5 * PI_URAD * PI_URAD - 4 * p;
    assert(den >= 4 * PI_URAD * PI_URAD);
    assert(16000 * p <= 1000 * den);
    assert(sin_half_spec(x) <= 1000) by {
        vstd::arithmetic::div_mod::lemma_div_is_ordered(16000 * p, den * 1000, den);
        vstd::arithmetic::div_mod::lemma_div_multiples_vanish(1000, den);
    }
    assert(sin_half_spec(x) >= 0) by {
        vstd::arithmetic::div_mod::lemma_div_is_ordered(0, 16000 * p, den);
        vstd::arithmetic::div_mod::lemma_basic_div_specific_divisor(den);
    }
}

/// The sine approximation stays within the scaled unit interval.
pub proof fn lemma_sin_bounds(a: int)
    requires
        0 <= a < TAU_URAD,
    ensures
        -1000 <= sin_urad_spec(a) <= 1000,
{
    if a <= PI_URAD {
        lemma_sin_half_bounds(a);
    } else {
        lemma_sin_half_bounds(a - PI_URAD);
    }
}

/// The sine of a zero heading is exactly zero, so a vehicle facing
/// straight up drifts neither left nor right.
pub proof fn lemma_sin_zero()
    ensures
        sin_urad_spec(0) == 0,
{
    assert(0 * (PI_URAD - 0) == 0) by (nonlinear_arith);
    assert(16000 * 0int == 0);
    vstd::arithmetic::div_mod::lemma_basic_div_specific_divisor(5 * PI_URAD * PI_URAD - 0);
}

/// The cosine of a zero heading is exactly one (scaled), so a vehicle
/// facing straight up moves straight up.
pub proof fn lemma_cos_zero()
    ensures
        cos_urad_spec(0) == 1000,
{
    assert(quarter_ahead_spec(0) == HALF_PI_URAD);
    let x = HALF_PI_URAD as int;
    let p = x * (PI_URAD - x);
    assert(p == 2467400073616) by (nonlinear_arith)
        requires
            p == x * (PI_URAD - x),
            x == HALF_PI_URAD as int,
    ;
    let den = 5 * PI_URAD * PI_URAD - 4 * p;
    assert(den == 39478401177856);
    assert(16000 * p == den * 1000);
    assert(sin_half_spec(x) == 1000) by {
        vstd::arithmetic::div_mod::lemma_div_multiples_vanish(1000, den);
    }
}

/// Executable fixed-point sine, scaled by 1000.
pub fn sin_milli(a: i64) -> (r: i64)
    requires
        0 <= a < TAU_URAD,
    ensures
        r == sin_urad_spec(a as int),
        -1000 <= r <= 1000,
{
    proof {
        lemma_sin_bounds(a as int);
    }
    if a <= PI_URAD {
        sin_half_exec(a)
    } else {
        -sin_half_exec(a - PI_URAD)
    }
}

/// Executable fixed-point cosine, scaled by 1000.
pub fn cos_milli(a: i64) -> (r: i64)
    requires
        0 <= a < TAU_URAD,
    ensures
        r == cos_urad_spec(a as int),
        -1000 <= r <= 1000,
{
    let b: i64 = if a + HALF_PI_URAD >= TAU_URAD {
        a + HALF_PI_URAD - TAU_URAD
    } else {
        a + HALF_PI_URAD
    };
    sin_milli(b)
}

fn sin_half_exec(x: i64) -> (r: i64)
    requires
        0 <= x <= PI_URAD,
    ensures
        r == sin_half_spec(x as int),
{
    proof {
        assert(0 <= x * (PI_URAD - x) <= PI_URAD * PI_URAD) by (nonlinear_arith)
            requires
                0 <= x <= PI_URAD,
        ;
    }
    let p: i64 = x * (PI_URAD - x);
    let den: i64 = 5 * PI_URAD * PI_URAD - 4 * p;
    let num: i64 = 16000 * p;
    let q: u64 = (num as u64) / (den as u64);
    proof {
        lemma_sin_half_bounds(x as int);
        assert(q == sin_half_spec(x as int));
    }
    q as i64
}

/// Steering direction chosen by the controls: `+1` left, `-1` right,
/// `0` straight.
pub open spec fn turn_dir_spec(c: Controls) -> int {
    if c.left {
        1
    } else if c.right {
        -1
    } else {
        0
    }
}

/// Speed after one tick of input and friction, before any turbo boost:
/// braking wins over thrust, small magnitudes snap to zero, and the
/// result is clamped to `[MIN_SPEED_MU, MAX_SPEED_MU]`.
pub open spec fn speed_after_spec(s: int, c: Controls, dt: int) -> int {
    let s1 = if c.back {
        if -BRAKE_SNAP_MU <= s <= BRAKE_SNAP_MU {
            0
        } else {
            s - BRAKE_FRICTION_PER_MS * dt
        }
    } else if c.forward {
        s + THRUST_PER_MS * dt
    } else {
        if -COAST_SNAP_MU <= s <= COAST_SNAP_MU {
            0
        } else if s > 0 {
            s - FRICTION_PER_MS * dt
        } else {
            s + FRICTION_PER_MS * dt
        }
    };
    clamp_spec(s1, MIN_SPEED_MU as int, MAX_SPEED_MU as int)
}

/// Turbo clock after one tick: it advances by the frame delta
/// (saturating at [`TURBO_CLOCK_SAT_MS`]) and resets to zero when
/// triggered past the cooldown interval.
pub open spec fn turbo_after_spec(t: int, dt: int, trigger: bool) -> int {
    let t2 = if t + dt > TURBO_CLOCK_SAT_MS {
        TURBO_CLOCK_SAT_MS as int
    } else {
        t + dt
    };
    if trigger && t2 > TURBO_INTERVAL_MS {
        0
    } else {
        t2
    }
}

/// Additive boost granted while the turbo clock is inside the window
/// after a reset.
pub open spec fn boost_spec(t: int) -> int {
    if t < TURBO_WINDOW_MS {
        TURBO_BOOST_MU as int
    } else {
        0
    }
}

/// Wraps an angle into `[0, TAU_URAD)` after one bounded step.
pub open spec fn wrap_tau_spec(a: int) -> int {
    if a < 0 {
        a + TAU_URAD
    } else if a >= TAU_URAD {
        a - TAU_URAD
    } else {
        a
    }
}

/// Heading after one tick: the vehicle turns by a fixed angular step
/// while it is moving at all (steering is gated on non-zero speed).
pub open spec fn heading_after_spec(h: int, c: Controls, s: int) -> int {
    if s != 0 {
        wrap_tau_spec(h + turn_dir_spec(c) * TURN_STEP_URAD)
    } else {
        h
    }
}

/// Divisor of the movement scaling: driving off-road roughly halves
/// the effective speed.
pub open spec fn move_div_spec(on_road: bool) -> int {
    if on_road {
        100_000
    } else {
        200_000
    }
}

/// Tick displacement along x, milli-units (forward vector is the
/// heading's unit vector `(-sin, cos)` scaled by 1000).
pub open spec fn delta_x_spec(h: int, s: int, dt: int, on_road: bool) -> int {
    (-sin_urad_spec(h)) * s * dt / move_div_spec(on_road)
}

/// Tick displacement along y, milli-units.
pub open spec fn delta_y_spec(h: int, s: int, dt: int, on_road: bool) -> int {
    cos_urad_spec(h) * s * dt / move_div_spec(on_road)
}

/// Floor of a position divided into tile columns/rows.
pub open spec fn tile_floor_spec(v: int) -> int {
    v / TILE_MU as int
}

/// Ceiling of a position divided into tile columns/rows.
pub open spec fn tile_ceil_spec(v: int) -> int {
    (v + TILE_MU - 1) / TILE_MU as int
}

/// Whether the vehicle is on drivable road: its position is rounded to
/// the lattice both up and down (on both axes) to tolerate straddling a
/// tile edge, and either rounding may hit road.
pub open spec fn vehicle_on_road_spec(tiles: TileIndex, x: int, y: int) -> bool {
    ||| tiles.has_tile(tile_ceil_spec(x) as i32, tile_ceil_spec(y) as i32)
    ||| tiles.has_tile(tile_floor_spec(x) as i32, tile_floor_spec(y) as i32)
}

/// The player's vehicle: exactly one per run.
pub struct Vehicle {
    /// World x position, milli-units.
    pub x_mu: i64,
    /// World y position, milli-units.
    pub y_mu: i64,
    /// Heading, micro-radians in `[0, TAU_URAD)`; zero faces up the track.
    pub heading_urad: i64,
    /// Signed speed, milli-units per second.
    pub speed_mu: i64,
    /// Milliseconds since the turbo was last reset.
    pub turbo_ms: i64,
}

impl Vehicle {
    /// State bounds that spawning establishes and every step preserves.
    pub open spec fn wf(&self) -> bool {
        &&& -POS_LIMIT_MU <= self.x_mu <= POS_LIMIT_MU
        &&& -POS_LIMIT_MU <= self.y_mu <= POS_LIMIT_MU
        &&& 0 <= self.heading_urad < TAU_URAD
        &&& MIN_SPEED_MU <= self.speed_mu <= MAX_SPEED_MU + TURBO_BOOST_MU
        &&& 0 <= self.turbo_ms <= TURBO_CLOCK_SAT_MS
    }

    /// The vehicle at run start: a little up the road, facing the track,
    /// rolling gently, with the turbo clock fresh.
    pub fn spawn() -> (v: Vehicle)
        ensures
            v.wf(),
            v.x_mu == 150_000 && v.y_mu == 50_000,
            v.heading_urad == 0,
            v.speed_mu == 10_000,
            v.turbo_ms == 0,
    {
        Vehicle { x_mu: 150_000, y_mu: 50_000, heading_urad: 0, speed_mu: 10_000, turbo_ms: 0 }
    }

    /// Whether the turbo is ready to trigger (signalled to the UI).
    pub fn turbo_ready(&self) -> (r: bool)
        ensures
            r == (self.turbo_ms > TURBO_INTERVAL_MS),
    {
        self.turbo_ms > TURBO_INTERVAL_MS
    }
}

/// Advances the vehicle by one tick: turbo clock, speed under input and
/// friction, boost, steering, then position integration scaled by the
/// road-surface factor.  Every field of the result is pinned to the
/// specification model.
pub fn vehicle_step(
    v: &mut Vehicle,
    c: Controls,
    turbo_trigger: bool,
    dt_ms: i64,
    tiles: &TileIndex,
)
    requires
        old(v).wf(),
        0 <= dt_ms <= MAX_DT_MS,
    ensures
        final(v).wf(),
        final(v).turbo_ms == turbo_after_spec(old(v).turbo_ms as int, dt_ms as int, turbo_trigger),
        final(v).speed_mu == speed_after_spec(old(v).speed_mu as int, c, dt_ms as int) + boost_spec(
            final(v).turbo_ms as int,
        ),
        final(v).heading_urad == heading_after_spec(
            old(v).heading_urad as int,
            c,
            final(v).speed_mu as int,
        ),
        final(v).x_mu == clamp_spec(
            old(v).x_mu + delta_x_spec(
                final(v).heading_urad as int,
                final(v).speed_mu as int,
                dt_ms as int,
                vehicle_on_road_spec(*tiles, old(v).x_mu as int, old(v).y_mu as int),
            ),
            -POS_LIMIT_MU as int,
            POS_LIMIT_MU as int,
        ),
        final(v).y_mu == clamp_spec(
            old(v).y_mu + delta_y_spec(
                final(v).heading_urad as int,
                final(v).speed_mu as int,
                dt_ms as int,
                vehicle_on_road_spec(*tiles, old(v).x_mu as int, old(v).y_mu as int),
            ),
            -POS_LIMIT_MU as int,
            POS_LIMIT_MU as int,
        ),
{
    // Turbo clock: advance, then reset when triggered off cooldown.
    let tsum: i64 = if v.turbo_ms + dt_ms > TURBO_CLOCK_SAT_MS {
        TURBO_CLOCK_SAT_MS
    } else {
        v.turbo_ms + dt_ms
    };
    let turbo_ms: i64 = if turbo_trigger && tsum > TURBO_INTERVAL_MS {
        0
    } else {
        tsum
    };

    // Speed under input and friction, clamped.
    let s1: i64 = if c.back {
        if -BRAKE_SNAP_MU <= v.speed_mu && v.speed_mu <= BRAKE_SNAP_MU {
            0
        } else {
            v.speed_mu - BRAKE_FRICTION_PER_MS * dt_ms
        }
    } else if c.forward {
        v.speed_mu + THRUST_PER_MS * dt_ms
    } else {
        if -COAST_SNAP_MU <= v.speed_mu && v.speed_mu <= COAST_SNAP_MU {
            0
        } else if v.speed_mu > 0 {
            v.speed_mu - FRICTION_PER_MS * dt_ms
        } else {
            v.speed_mu + FRICTION_PER_MS * dt_ms
        }
    };
    let clamped: i64 = clamp_i64(s1, MIN_SPEED_MU, MAX_SPEED_MU);

    // The boost is additive and deliberately not clamped: the next
    // tick's clamp pulls the speed back into range.
    let speed_mu: i64 = if turbo_ms < TURBO_WINDOW_MS {
        clamped + TURBO_BOOST_MU
    } else {
        clamped
    };

    // Steering, gated on non-zero speed.
    let heading_urad: i64 = if speed_mu != 0 {
        let td: i64 = if c.left {
            1
        } else if c.right {
            -1
        } else {
            0
        };
        let h1 = v.heading_urad + td * TURN_STEP_URAD;
        if h1 < 0 {
            h1 + TAU_URAD
        } else if h1 >= TAU_URAD {
            h1 - TAU_URAD
        } else {
            h1
        }
    } else {
        v.heading_urad
    };

    // Road-surface check at both roundings of both axes.
    let cx = div_ceil_i64(v.x_mu, TILE_MU);
    let cy = div_ceil_i64(v.y_mu, TILE_MU);
    let fx = div_floor_i64(v.x_mu, TILE_MU);
    let fy = div_floor_i64(v.y_mu, TILE_MU);
    let on_road = tiles.contains(cx as i32, cy as i32) || tiles.contains(fx as i32, fy as i32);
    proof {
        assert(on_road == vehicle_on_road_spec(*tiles, v.x_mu as int, v.y_mu as int));
    }

    // Position integration along the heading's unit vector.
    let divisor: i64 = if on_road {
        100_000
    } else {
        200_000
    };
    let sin_h = sin_milli(heading_urad);
    let cos_h = cos_milli(heading_urad);
    let dx = crate::fixed::scaled_delta(-sin_h, speed_mu, dt_ms, divisor);
    let dy = crate::fixed::scaled_delta(cos_h, speed_mu, dt_ms, divisor);
    let x_mu = clamp_i64(v.x_mu + dx, -POS_LIMIT_MU, POS_LIMIT_MU);
    let y_mu = clamp_i64(v.y_mu + dy, -POS_LIMIT_MU, POS_LIMIT_MU);

    *v = Vehicle { x_mu, y_mu, heading_urad, speed_mu, turbo_ms };
}

/// For every starting speed, input and frame delta, the speed update
/// lands in `[MIN_SPEED_MU, MAX_SPEED_MU]`; outside the turbo window the
/// stored speed (boost included) obeys the same bound.
pub proof fn lemma_speed_bounded(s: int, c: Controls, dt: int, t_after: int)
    ensures
        MIN_SPEED_MU <= speed_after_spec(s, c, dt) <= MAX_SPEED_MU,
        t_after >= TURBO_WINDOW_MS ==> MIN_SPEED_MU <= speed_after_spec(s, c, dt) + boost_spec(
            t_after,
        ) <= MAX_SPEED_MU,
{
}

/// Turbo gating: the boost changes the speed only inside the window
/// after a reset, and the clock resets only when the trigger is pulled
/// past the cooldown interval.
pub proof fn lemma_turbo_gating(s: int, c: Controls, t: int, dt: int, trigger: bool)
    requires
        0 <= t,
        0 <= dt,
    ensures
        speed_after_spec(s, c, dt) + boost_spec(turbo_after_spec(t, dt, trigger)) != speed_after_spec(
            s,
            c,
            dt,
        ) ==> turbo_after_spec(t, dt, trigger) < TURBO_WINDOW_MS,
        turbo_after_spec(t, dt, trigger) < t + dt && t + dt <= TURBO_CLOCK_SAT_MS ==> trigger && t
            + dt > TURBO_INTERVAL_MS,
{
}

/// Forward-only motion from a straight-up heading never loses ground:
/// the heading stays straight up, the x displacement is zero, and the
/// y displacement is non-negative whenever the speed is.
pub proof fn lemma_forward_motion(y: int, s: int, dt: int, on_road: bool)
    requires
        s >= 0,
        dt >= 0,
        -POS_LIMIT_MU <= y <= POS_LIMIT_MU,
    ensures
        delta_x_spec(0, s, dt, on_road) == 0,
        delta_y_spec(0, s, dt, on_road) >= 0,
        clamp_spec(y + delta_y_spec(0, s, dt, on_road), -POS_LIMIT_MU as int, POS_LIMIT_MU as int)
            >= y,
{
    lemma_sin_zero();
    lemma_cos_zero();
    let d = move_div_spec(on_road);
    assert(0 * s * dt == 0) by (nonlinear_arith);
    assert(delta_x_spec(0, s, dt, on_road) == 0) by {
        vstd::arithmetic::div_mod::lemma_basic_div_specific_divisor(d);
    }
    assert(1000 * s * dt >= 0) by (nonlinear_arith)
        requires
            s >= 0,
            dt >= 0,
    ;
    assert(delta_y_spec(0, s, dt, on_road) >= 0) by {
        vstd::arithmetic::div_mod::lemma_div_is_ordered(0, 1000 * s * dt, d);
        vstd::arithmetic::div_mod::lemma_basic_div_specific_divisor(d);
    }
}

/// Forward-only input keeps a non-negative speed non-negative.
pub proof fn lemma_forward_speed_nonneg(s: int, c: Controls, dt: int)
    requires
        s >= 0,
        dt >= 0,
        c.forward,
        !c.back,
    ensures
        speed_after_spec(s, c, dt) >= 0,
{
}

} // verus!
