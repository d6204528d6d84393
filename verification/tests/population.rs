use zombie_road::enemy::{enemy_step, Enemy};
use zombie_road::rng::SimRng;
use zombie_road::settings::GameSettings;
use zombie_road::spawn::{despawn_far_behind, spawn_batch, spawn_cap};
use zombie_road::settings::{Difficulty, EntityCount};

#[test]
fn cap_formula_exact_values() {
    assert_eq!(spawn_cap(5_000, 0), 5);
    assert_eq!(spawn_cap(5_000, 200_000), 1_005);
    assert_eq!(spawn_cap(5_000, 1_000_000), 5_000);
    assert_eq!(spawn_cap(100, 2_000_000), 100);
    assert_eq!(spawn_cap(5_000, -1_000_000), 0);
    assert_eq!(spawn_cap(50_000, 999_999), 50_000);
}

#[test]
fn batch_fills_up_to_the_cap_and_no_further() {
    let settings = GameSettings::default();  // cap ladder entry: 5000
    let mut rng = SimRng::from_seed(11);

    // Progress 0: cap is 5.
    let b = spawn_batch(&mut rng, &settings, 0, 0, 0, 0);
    assert_eq!(b.len(), 5);
    let b = spawn_batch(&mut rng, &settings, 0, 0, 0, 3);
    assert_eq!(b.len(), 2);
    let b = spawn_batch(&mut rng, &settings, 0, 0, 0, 5);
    assert_eq!(b.len(), 0);
    let b = spawn_batch(&mut rng, &settings, 0, 0, 0, 100);
    assert_eq!(b.len(), 0);

    // High progress: cap is 5000, so a full batch fits.
    let b = spawn_batch(&mut rng, &settings, 1_000_000, 0, 0, 0);
    assert_eq!(b.len(), 50);
    for e in b.iter() {
        assert!(30 <= e.sprite && e.sprite <= 43);
    }
}

#[test]
fn early_candidates_keep_their_distance_or_go_to_the_sentinel() {
    // Easy difficulty at zero progress: no road or half-road
    // distribution is enabled, so every candidate is an ambient band
    // placement (at least half a window off the vehicle laterally) or
    // the far-away sentinel.
    let settings = GameSettings {
        difficulty: Difficulty::Easy,
        entity_count: EntityCount::FiftyThousand,
        music: false,
        god_mode: false,
        debug_info: false,
    };
    let mut rng = SimRng::from_seed(14);
    let (vx, vy) = (150_000, 50_000);
    for _ in 0..40 {
        let b = spawn_batch(&mut rng, &settings, 0, vx, vy, 0);
        assert_eq!(b.len(), 5);
        for e in b.iter() {
            let off_side = (e.x_mu - vx).abs() >= 500_000;
            let sentinel = e.x_mu == 10_000_000 && e.y_mu == 10_000_000;
            assert!(off_side || sentinel);
            // The heavy sprites are gated on progress 0.3.
            assert!(30 <= e.sprite && e.sprite <= 39);
        }
    }
}

#[test]
fn despawn_keeps_only_enemies_close_enough_behind() {
    let vy = 1_000_000;
    let mut enemies = vec![
        Enemy { x_mu: 0, y_mu: vy - 700_000, sprite: 30 },
        Enemy { x_mu: 0, y_mu: vy - 700_001, sprite: 31 },
        Enemy { x_mu: 0, y_mu: vy + 5_000_000, sprite: 32 },
        Enemy { x_mu: 0, y_mu: vy, sprite: 33 },
    ];
    despawn_far_behind(&mut enemies, vy);
    assert_eq!(enemies.len(), 3);
    assert_eq!(enemies[0].sprite, 30);
    assert_eq!(enemies[1].sprite, 32);
    assert_eq!(enemies[2].sprite, 33);
}

#[test]
fn enemy_at_the_vehicle_stays_put() {
    let mut rng = SimRng::from_seed(12);
    let mut e = Enemy { x_mu: 42_000, y_mu: -3_000, sprite: 35 };
    enemy_step(&mut e, 42_000, -3_000, 16, &mut rng);
    assert_eq!(e, Enemy { x_mu: 42_000, y_mu: -3_000, sprite: 35 });
}

#[test]
fn enemy_step_is_bounded_and_walks_toward_the_vehicle() {
    let mut rng = SimRng::from_seed(13);
    let mut e = Enemy { x_mu: 0, y_mu: 0, sprite: 30 };
    let (vx, vy) = (1_000_000, 1_000_000);
    for _ in 0..100 {
        let before = (e.x_mu, e.y_mu);
        enemy_step(&mut e, vx, vy, 16, &mut rng);
        assert!((e.x_mu - before.0).abs() <= 383 * 16);
        assert!((e.y_mu - before.1).abs() <= 383 * 16);
        assert_eq!(e.sprite, 30);
    }
    // After a hundred ticks of pursuit the enemy has closed in.
    assert!(e.x_mu > 0 && e.y_mu > 0);
}
