use zombie_road::collision::{MAX_CAR_HEALTH_MILLI, ZOMBIE_ATTACK_MILLI};
use zombie_road::enemy::Enemy;
use zombie_road::physics::Controls;
use zombie_road::progress::Outcome;
use zombie_road::rng::SimRng;
use zombie_road::settings::{Difficulty, EntityCount, GameSettings};
use zombie_road::sim::{GameSim, TickInput};

fn forward_input(dt_ms: i64) -> TickInput {
    TickInput {
        controls: Controls { forward: true, left: false, back: false, right: false },
        turbo_trigger: false,
        fire_at: None,
        dt_ms,
    }
}

fn idle_input(dt_ms: i64) -> TickInput {
    TickInput {
        controls: Controls { forward: false, left: false, back: false, right: false },
        turbo_trigger: false,
        fire_at: None,
        dt_ms,
    }
}

fn god_settings() -> GameSettings {
    GameSettings {
        difficulty: Difficulty::Easy,
        entity_count: EntityCount::FiveThousand,
        music: false,
        god_mode: true,
        debug_info: false,
    }
}

#[test]
fn a_new_run_starts_fresh() {
    let sim = GameSim::new(GameSettings::default(), 42);
    assert_eq!(sim.outcome, Outcome::Playing);
    assert_eq!(sim.state.health_milli, MAX_CAR_HEALTH_MILLI);
    assert_eq!(sim.state.score, 0);
    assert_eq!(sim.state.progress_micro, 0);
    assert!(sim.enemies.is_empty());
    assert!(sim.bullets.is_empty());
}

#[test]
fn progress_tracks_the_vehicle_position() {
    let mut sim = GameSim::new(GameSettings::default(), 21);
    sim.tick(idle_input(0));
    // The vehicle spawns 50 units up a 48,000-unit track.
    assert_eq!(sim.state.progress_micro, 50_000 / 48);
}

#[test]
fn forward_only_progress_is_monotone_before_the_obstacle_zone() {
    let mut sim = GameSim::new(GameSettings::default(), 9);
    let mut last = sim.state.progress_micro;
    for _ in 0..150 {
        sim.tick(forward_input(16));
        assert!(sim.state.progress_micro >= last);
        last = sim.state.progress_micro;
    }
    assert!(last > 0);
}

#[test]
fn population_respects_the_cap_each_tick() {
    let mut sim = GameSim::new(god_settings(), 10);
    for _ in 0..300 {
        sim.tick(forward_input(16));
        if sim.outcome != Outcome::Playing {
            break;
        }
        let maxz = 5_000i64;
        let p = sim.state.progress_micro;
        let raw = maxz * p / 1_000_000 + 5;
        let cap = raw.clamp(0, maxz);
        assert!((sim.enemies.len() as i64) <= cap);
    }
}

#[test]
fn contact_damage_five_ticks_then_starvation_loses() {
    let mut sim = GameSim::new(GameSettings::default(), 3);
    // A single enemy pinned inside the contact box; zero frame delta
    // keeps every position where it is.
    sim.enemies.push(Enemy { x_mu: 150_000, y_mu: 50_000, sprite: 30 });
    for _ in 0..5 {
        let r = sim.tick(idle_input(0));
        assert_eq!(r, Outcome::Playing);
    }
    assert_eq!(sim.state.health_milli, MAX_CAR_HEALTH_MILLI - 5 * ZOMBIE_ATTACK_MILLI);
    assert_eq!(sim.state.score, 0);

    let mut r = sim.outcome;
    for _ in 0..200 {
        r = sim.tick(idle_input(0));
        if r != Outcome::Playing {
            break;
        }
    }
    assert_eq!(r, Outcome::Lost);
    assert_eq!(sim.state.health_milli, 0);
}

#[test]
fn god_mode_keeps_health_whole_under_contact() {
    let mut sim = GameSim::new(god_settings(), 3);
    sim.enemies.push(Enemy { x_mu: 150_000, y_mu: 50_000, sprite: 30 });
    for _ in 0..50 {
        sim.tick(idle_input(0));
    }
    assert_eq!(sim.state.health_milli, MAX_CAR_HEALTH_MILLI);
    assert_eq!(sim.outcome, Outcome::Playing);
}

#[test]
fn a_finished_run_halts() {
    let mut sim = GameSim::new(GameSettings::default(), 3);
    sim.enemies.push(Enemy { x_mu: 150_000, y_mu: 50_000, sprite: 30 });
    let mut r = sim.outcome;
    for _ in 0..200 {
        r = sim.tick(idle_input(0));
        if r != Outcome::Playing {
            break;
        }
    }
    assert_eq!(r, Outcome::Lost);
    let health = sim.state.health_milli;
    let score = sim.state.score;
    let enemies = sim.enemies.len();
    let r2 = sim.tick(forward_input(16));
    assert_eq!(r2, Outcome::Lost);
    assert_eq!(sim.state.health_milli, health);
    assert_eq!(sim.state.score, score);
    assert_eq!(sim.enemies.len(), enemies);
}

#[test]
fn firing_point_blank_scores_through_the_loop() {
    let mut sim = GameSim::new(god_settings(), 8);
    // An enemy pinned on the vehicle; fire straight at it with a zero
    // frame delta so nothing moves before collision.
    sim.enemies.push(Enemy { x_mu: 150_000, y_mu: 50_000, sprite: 30 });
    let input = TickInput {
        controls: Controls { forward: false, left: false, back: false, right: false },
        turbo_trigger: false,
        fire_at: Some((150_000, 50_000)),
        dt_ms: 0,
    };
    sim.tick(input);
    assert_eq!(sim.state.score, 1);
    // The pinned enemy is gone; only this tick's far-away spawns remain.
    assert!(sim.enemies.iter().all(|e| (e.x_mu, e.y_mu) != (150_000, 50_000)));
}

#[test]
fn seeded_runs_are_reproducible() {
    let mut a = GameSim::new(GameSettings::default(), 77);
    let mut b = GameSim::new(GameSettings::default(), 77);
    for t in 0..120 {
        let input = forward_input(16 + (t % 3));
        a.tick(input);
        b.tick(input);
        assert_eq!(a.state, b.state);
        assert_eq!(a.vehicle.x_mu, b.vehicle.x_mu);
        assert_eq!(a.vehicle.y_mu, b.vehicle.y_mu);
        assert_eq!(a.enemies, b.enemies);
    }
}

#[test]
fn random_draws_are_seeded_and_in_range() {
    let mut a = SimRng::from_seed(5);
    let mut b = SimRng::from_seed(5);
    let mut c = SimRng::from_seed(6);
    let mut all_equal = true;
    for _ in 0..100 {
        let x = a.next_in(-1, 1);
        assert!(-1 <= x && x <= 1);
        assert_eq!(x, b.next_in(-1, 1));
        if x != c.next_in(-1, 1) {
            all_equal = false;
        }
    }
    assert!(!all_equal);
    assert_eq!(a.next_in(5, 5), 5);
    // The draws actually vary: a source that echoed one bound back
    // would fail this.
    let mut distinct = false;
    let first = a.next_in(0, 999_999);
    for _ in 0..100 {
        if a.next_in(0, 999_999) != first {
            distinct = true;
        }
    }
    assert!(distinct);
    for _ in 0..100 {
        let p = a.per_mille();
        assert!(0 <= p && p <= 999);
        let q = a.per_myriad();
        assert!(0 <= q && q <= 9_999);
    }
}

#[test]
fn settings_cycle_and_describe_themselves() {
    let mut s = GameSettings::default();
    assert_eq!(s.difficulty_as_str(), "Difficulty - Easy");
    assert_eq!(s.entity_count_as_str(), "Entity Count - 5000");
    assert_eq!(s.god_mode_as_str(), "God Mode - Off");
    assert_eq!(s.music_as_str(), "Music - On");
    assert_eq!(s.debug_info_as_str(), "Debug Info - Off");
    assert_eq!(s.get_num_max_zombies(), 5_000);

    s.update_difficulty();
    assert_eq!(s.difficulty_as_str(), "Difficulty - Moderate");
    s.update_difficulty();
    assert_eq!(s.difficulty_as_str(), "Difficulty - Hard");
    s.update_difficulty();
    assert_eq!(s.difficulty_as_str(), "Difficulty - Easy");

    s.update_entity_count();
    assert_eq!(s.get_num_max_zombies(), 10_000);
    s.update_entity_count();
    s.update_entity_count();
    assert_eq!(s.get_num_max_zombies(), 50_000);
    s.update_entity_count();
    assert_eq!(s.get_num_max_zombies(), 100);
    assert_eq!(s.entity_count_as_str(), "Entity Count - 100");
}
