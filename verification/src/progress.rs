//! Progress tracking: how far along the track the vehicle is, the
//! camera-zoom policy it drives, and the win/lose decision.
//!
//! Progress is a signed fraction of the total road length, held in
//! millionths: 1,000,000 means the finish line, negative values mean the
//! vehicle is heading the wrong way.

use vstd::prelude::*;
use crate::fixed::div_floor_i64;

verus! {

/// Total road length in milli-units (600 rows of 80-unit tiles).
pub const TRACK_LEN_MU: i64 = 48_000_000;

/// Milli-units per millionth of progress (`TRACK_LEN_MU / 1_000_000`).
pub const MU_PER_PROGRESS_MICRO: i64 = 48;

/// Progress at or below which the run is lost for driving backwards.
pub const LOSE_PROGRESS_MICRO: i64 = -100_000;

/// Progress at which the run is won.
pub const WIN_PROGRESS_MICRO: i64 = 1_000_000;

/// Default camera zoom, milli-scale.
pub const ZOOM_DEFAULT_MILLI: i64 = 2_000;

/// Closest camera zoom near the finish, milli-scale.
pub const ZOOM_NEAR_FINISH_MILLI: i64 = 1_800;

/// Progress past which the camera starts zooming in.
pub const ZOOM_IN_PROGRESS_MICRO: i64 = 900_000;

/// Progress as a function of the vehicle's y position (floor semantics,
/// so it is monotone in y).
pub open spec fn progress_of_spec(y_mu: int) -> int {
    y_mu / MU_PER_PROGRESS_MICRO as int
}

/// Recomputes progress from the vehicle position; no smoothing.
pub fn progress_micro(y_mu: i64) -> (p: i64)
    requires
        y_mu > i64::MIN,
    ensures
        p == progress_of_spec(y_mu as int),
{
    div_floor_i64(y_mu, MU_PER_PROGRESS_MICRO)
}

/// Progress never decreases when the vehicle's y position does not.
pub proof fn lemma_progress_monotone(y1: int, y2: int)
    requires
        y1 <= y2,
    ensures
        progress_of_spec(y1) <= progress_of_spec(y2),
{
    vstd::arithmetic::div_mod::lemma_div_is_ordered(y1, y2, MU_PER_PROGRESS_MICRO as int);
}

/// How a tick ends for the run.
#[derive(Clone, Copy, PartialEq, Eq, Structural, Debug)]
pub enum Outcome {
    /// The run goes on.
    Playing,
    /// The finish line was reached.
    Won,
    /// Health ran out, or the vehicle drove too far the wrong way.
    Lost,
}

/// The win/lose decision from progress alone: too far backwards loses
/// immediately; reaching the finish clamps progress to one and wins;
/// anything else plays on.
pub fn evaluate_progress(p_micro: i64) -> (r: (i64, Outcome))
    ensures
        p_micro < LOSE_PROGRESS_MICRO ==> r == (p_micro, Outcome::Lost),
        p_micro >= WIN_PROGRESS_MICRO ==> r == (WIN_PROGRESS_MICRO, Outcome::Won),
        LOSE_PROGRESS_MICRO <= p_micro < WIN_PROGRESS_MICRO ==> r == (p_micro, Outcome::Playing),
{
    if p_micro < LOSE_PROGRESS_MICRO {
        (p_micro, Outcome::Lost)
    } else if p_micro >= WIN_PROGRESS_MICRO {
        (WIN_PROGRESS_MICRO, Outcome::Won)
    } else {
        (p_micro, Outcome::Playing)
    }
}

/// Camera zoom after one tick: near the finish the camera eases in
/// toward [`ZOOM_NEAR_FINISH_MILLI`]; otherwise it relaxes back out
/// toward [`ZOOM_DEFAULT_MILLI`].
pub open spec fn zoom_after_spec(zoom: int, p_micro: int, dt_ms: int) -> int {
    if p_micro > ZOOM_IN_PROGRESS_MICRO {
        if zoom <= ZOOM_NEAR_FINISH_MILLI {
            zoom
        } else {
            zoom - dt_ms / 5
        }
    } else {
        if zoom >= ZOOM_DEFAULT_MILLI {
            zoom
        } else {
            zoom + dt_ms / 10
        }
    }
}

/// Executable twin of [`zoom_after_spec`], with the zoom kept inside
/// its working band.
pub fn zoom_step(zoom_milli: i64, p_micro: i64, dt_ms: i64) -> (z: i64)
    requires
        1_000 <= zoom_milli <= 2_100,
        0 <= dt_ms <= 1_000,
    ensures
        z == zoom_after_spec(zoom_milli as int, p_micro as int, dt_ms as int),
        1_000 <= z <= 2_100,
{
    if p_micro > ZOOM_IN_PROGRESS_MICRO {
        if zoom_milli <= ZOOM_NEAR_FINISH_MILLI {
            zoom_milli
        } else {
            zoom_milli - div_floor_i64(dt_ms, 5)
        }
    } else {
        if zoom_milli >= ZOOM_DEFAULT_MILLI {
            zoom_milli
        } else {
            zoom_milli + div_floor_i64(dt_ms, 10)
        }
    }
}

/// How far above the vehicle the camera aims, milli-units.
pub const CAMERA_AHEAD_MU: i64 = 200_000;

/// Denominator of the camera's ease toward its target: one twentieth
/// of the remaining distance per frame.
pub const CAMERA_EASE_DIV: i64 = 20;

/// One tick of the camera chase: the camera eases a twentieth of the
/// way toward a point just above the vehicle.
pub fn camera_follow(cam_x: i64, cam_y: i64, vx: i64, vy: i64) -> (r: (i64, i64))
    requires
        -20_000_000_000 <= cam_x <= 20_000_000_000,
        -20_000_000_000 <= cam_y <= 20_000_000_000,
        -10_000_000_000 <= vx <= 10_000_000_000,
        -10_000_000_000 <= vy <= 10_000_000_000,
    ensures
        r.0 == cam_x + (vx - cam_x) / CAMERA_EASE_DIV as int,
        r.1 == cam_y + (vy + CAMERA_AHEAD_MU - cam_y) / CAMERA_EASE_DIV as int,
{
    let nx = cam_x + div_floor_i64(vx - cam_x, CAMERA_EASE_DIV);
    let ny = cam_y + div_floor_i64(vy + CAMERA_AHEAD_MU - cam_y, CAMERA_EASE_DIV);
    (nx, ny)
}

} // verus!
