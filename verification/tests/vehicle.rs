use zombie_road::physics::{
    cos_milli, sin_milli, vehicle_step, Controls, Vehicle, HALF_PI_URAD, MAX_SPEED_MU,
    MIN_SPEED_MU, PI_URAD, TAU_URAD, TURBO_BOOST_MU,
};
use zombie_road::progress::{evaluate_progress, progress_micro, zoom_step, Outcome};
use zombie_road::tiles::TileIndex;

fn idle() -> Controls {
    Controls { forward: false, left: false, back: false, right: false }
}

fn fwd() -> Controls {
    Controls { forward: true, left: false, back: false, right: false }
}

#[test]
fn trig_cardinal_points() {
    assert_eq!(sin_milli(0), 0);
    assert_eq!(cos_milli(0), 1_000);
    assert_eq!(sin_milli(HALF_PI_URAD), 1_000);
    assert_eq!(sin_milli(PI_URAD), 0);
    assert_eq!(cos_milli(PI_URAD), -1_000);
    let mut a = 0i64;
    while a < TAU_URAD {
        assert!(-1_000 <= sin_milli(a) && sin_milli(a) <= 1_000);
        assert!(-1_000 <= cos_milli(a) && cos_milli(a) <= 1_000);
        a += 12_345;
    }
}

#[test]
fn first_tick_off_road_exact() {
    let mut v = Vehicle::spawn();
    let tiles = TileIndex::new();
    vehicle_step(&mut v, fwd(), false, 16, &tiles);
    // Thrust for 16 ms plus the start-of-run boost window.
    assert_eq!(v.turbo_ms, 16);
    assert_eq!(v.speed_mu, 10_320 + TURBO_BOOST_MU);
    assert_eq!(v.heading_urad, 0);
    assert_eq!(v.x_mu, 150_000);
    // 1000 * 70_320 * 16 / 200_000, floored: off-road halves the pace.
    assert_eq!(v.y_mu, 50_000 + 5_625);
}

#[test]
fn first_tick_on_road_moves_twice_as_fast() {
    let mut v = Vehicle::spawn();
    let mut tiles = TileIndex::new();
    // The spawn point (150, 50 units) rounds down onto tile (1, 0).
    tiles.insert(1, 0);
    vehicle_step(&mut v, fwd(), false, 16, &tiles);
    assert_eq!(v.y_mu, 50_000 + 11_251);
}

#[test]
fn braking_snaps_small_speeds_to_zero() {
    let mut v = Vehicle::spawn();
    v.speed_mu = 10_000;
    v.turbo_ms = 1_000_000;
    let brake = Controls { forward: false, left: false, back: true, right: false };
    let tiles = TileIndex::new();
    vehicle_step(&mut v, brake, false, 100, &tiles);
    assert_eq!(v.speed_mu, 0);

    v.speed_mu = 30_000;
    vehicle_step(&mut v, brake, false, 100, &tiles);
    assert_eq!(v.speed_mu, 30_000 - 2_400);
}

#[test]
fn coasting_snaps_and_decays() {
    let mut v = Vehicle::spawn();
    v.turbo_ms = 1_000_000;
    v.speed_mu = 5_000;
    let tiles = TileIndex::new();
    vehicle_step(&mut v, idle(), false, 100, &tiles);
    assert_eq!(v.speed_mu, 0);

    v.speed_mu = -20_000;
    vehicle_step(&mut v, idle(), false, 100, &tiles);
    assert_eq!(v.speed_mu, -18_000);
}

#[test]
fn speed_stays_clamped_under_any_input() {
    let tiles = TileIndex::new();
    let mut v = Vehicle::spawn();
    v.turbo_ms = 1_000_000;
    let patterns = [
        fwd(),
        idle(),
        Controls { forward: false, left: false, back: true, right: false },
        Controls { forward: true, left: true, back: false, right: false },
        Controls { forward: true, left: false, back: true, right: true },
    ];
    for t in 0..200 {
        vehicle_step(&mut v, patterns[t % patterns.len()], false, 250, &tiles);
        assert!(MIN_SPEED_MU <= v.speed_mu && v.speed_mu <= MAX_SPEED_MU);
    }
}

#[test]
fn reverse_speed_clamps_at_half_max() {
    let mut v = Vehicle::spawn();
    v.turbo_ms = 1_000_000;
    v.speed_mu = -20_000;
    let brake = Controls { forward: false, left: false, back: true, right: false };
    let tiles = TileIndex::new();
    vehicle_step(&mut v, brake, false, 1_000, &tiles);
    assert_eq!(v.speed_mu, MIN_SPEED_MU);
}

#[test]
fn turbo_triggers_only_past_cooldown() {
    let tiles = TileIndex::new();

    // Still cooling down: the trigger does nothing and no boost lands.
    let mut v = Vehicle::spawn();
    v.speed_mu = 10_000;
    v.turbo_ms = 4_000;
    vehicle_step(&mut v, fwd(), true, 100, &tiles);
    assert_eq!(v.turbo_ms, 4_100);
    assert_eq!(v.speed_mu, 12_000);

    // Exactly at the interval is still not past it.
    let mut v = Vehicle::spawn();
    v.speed_mu = 10_000;
    v.turbo_ms = 4_900;
    vehicle_step(&mut v, fwd(), true, 100, &tiles);
    assert_eq!(v.turbo_ms, 5_000);
    assert_eq!(v.speed_mu, 12_000);

    // Past the interval: the clock resets and the boost lands.
    let mut v = Vehicle::spawn();
    v.speed_mu = 10_000;
    v.turbo_ms = 4_901;
    vehicle_step(&mut v, fwd(), true, 100, &tiles);
    assert_eq!(v.turbo_ms, 0);
    assert_eq!(v.speed_mu, 12_000 + TURBO_BOOST_MU);
}

#[test]
fn boost_applies_only_inside_the_window() {
    let tiles = TileIndex::new();
    let mut v = Vehicle::spawn();
    v.speed_mu = 0;
    v.turbo_ms = 199;
    vehicle_step(&mut v, idle(), false, 0, &tiles);
    assert_eq!(v.speed_mu, TURBO_BOOST_MU);

    let mut v = Vehicle::spawn();
    v.speed_mu = 0;
    v.turbo_ms = 200;
    vehicle_step(&mut v, idle(), false, 0, &tiles);
    assert_eq!(v.speed_mu, 0);
}

#[test]
fn steering_changes_heading_only_when_moving() {
    let tiles = TileIndex::new();
    let left = Controls { forward: false, left: true, back: false, right: false };

    let mut v = Vehicle::spawn();
    v.speed_mu = 10_000;
    v.turbo_ms = 1_000_000;
    vehicle_step(&mut v, left, false, 16, &tiles);
    assert_eq!(v.heading_urad, 33_333);

    let mut v = Vehicle::spawn();
    v.speed_mu = 0;
    v.turbo_ms = 1_000_000;
    vehicle_step(&mut v, left, false, 0, &tiles);
    assert_eq!(v.heading_urad, 0);
}

#[test]
fn progress_is_floor_of_track_fraction() {
    assert_eq!(progress_micro(0), 0);
    assert_eq!(progress_micro(47), 0);
    assert_eq!(progress_micro(48), 1);
    assert_eq!(progress_micro(-1), -1);
    assert_eq!(progress_micro(50_000), 1_041);
    assert_eq!(progress_micro(48_000_000), 1_000_000);
}

#[test]
fn win_and_lose_thresholds() {
    assert_eq!(evaluate_progress(-100_001), (-100_001, Outcome::Lost));
    assert_eq!(evaluate_progress(-100_000), (-100_000, Outcome::Playing));
    assert_eq!(evaluate_progress(999_999), (999_999, Outcome::Playing));
    assert_eq!(evaluate_progress(1_000_000), (1_000_000, Outcome::Won));
    assert_eq!(evaluate_progress(1_234_567), (1_000_000, Outcome::Won));
}

#[test]
fn camera_eases_toward_a_point_above_the_vehicle() {
    // From the origin toward (0, 200 units): one twentieth per frame.
    assert_eq!(zombie_road::progress::camera_follow(0, 0, 0, 0), (0, 10_000));
    // Converged: the camera stays put.
    assert_eq!(zombie_road::progress::camera_follow(80_000, 250_000, 80_000, 50_000), (80_000, 250_000));
    assert_eq!(zombie_road::progress::camera_follow(-2_000_000, 0, 0, 0), (-1_900_000, 10_000));
}

#[test]
fn zoom_eases_in_near_the_finish_and_relaxes_elsewhere() {
    assert_eq!(zoom_step(2_000, 950_000, 100), 1_980);
    assert_eq!(zoom_step(1_800, 950_000, 100), 1_800);
    assert_eq!(zoom_step(1_500, 0, 100), 1_510);
    assert_eq!(zoom_step(2_000, 0, 100), 2_000);
}
