use zombie_road::bullet::{despawn_expired_bullets, spawn_bullet, update_bullet, Bullet};
use zombie_road::collision::{
    any_obstacle_hit, apply_zombie_hits, count_enemy_hits, resolve_bullet_hits,
};
use zombie_road::enemy::Enemy;
use zombie_road::road::{Obstacle, ObstacleKind};

fn bullet_at(x: i64, y: i64) -> Bullet {
    Bullet { x_mu: x, y_mu: y, dir_x_milli: 0, dir_y_milli: 1_000, age_ms: 0 }
}

#[test]
fn obstacle_box_is_25_units_inclusive() {
    let obstacles = vec![Obstacle { tile_x: 1, row: 40, kind: ObstacleKind::Car1 }];
    // The obstacle sits at (80, 3200) world units.
    assert!(any_obstacle_hit(&obstacles, 105_000, 3_200_000));
    assert!(any_obstacle_hit(&obstacles, 55_000, 3_175_000));
    assert!(!any_obstacle_hit(&obstacles, 105_001, 3_200_000));
    assert!(!any_obstacle_hit(&obstacles, 105_000, 3_225_001));
    assert!(!any_obstacle_hit(&Vec::new(), 80_000, 3_200_000));
}

#[test]
fn enemy_box_is_20_units_and_counts_every_contact() {
    let enemies = vec![
        Enemy { x_mu: 20_000, y_mu: 0, sprite: 30 },
        Enemy { x_mu: -20_000, y_mu: 20_000, sprite: 31 },
        Enemy { x_mu: 20_001, y_mu: 0, sprite: 32 },
        Enemy { x_mu: 0, y_mu: -20_001, sprite: 33 },
    ];
    assert_eq!(count_enemy_hits(&enemies, 0, 0), 2);
    assert_eq!(count_enemy_hits(&Vec::new(), 0, 0), 0);
}

#[test]
fn contact_damage_is_per_hit_and_clamps_at_zero() {
    assert_eq!(apply_zombie_hits(200_000, 0, false), (200_000, false));
    assert_eq!(apply_zombie_hits(200_000, 3, false), (194_000, false));
    assert_eq!(apply_zombie_hits(4_000, 1, false), (2_000, false));
    assert_eq!(apply_zombie_hits(4_000, 2, false), (0, true));
    assert_eq!(apply_zombie_hits(3_999, 2, false), (0, true));
}

#[test]
fn god_mode_ignores_any_number_of_contacts() {
    assert_eq!(apply_zombie_hits(123_456, 7, true), (123_456, false));
    assert_eq!(apply_zombie_hits(2_000, 1_000_000, true), (2_000, false));
}

#[test]
fn point_blank_projectile_scores_once_and_removes_the_enemy() {
    let bullets = vec![bullet_at(77_000, -5_000)];
    let mut enemies = vec![Enemy { x_mu: 77_000, y_mu: -5_000, sprite: 30 }];
    let score = resolve_bullet_hits(&bullets, &mut enemies, 0);
    assert_eq!(score, 1);
    assert!(enemies.is_empty());
}

#[test]
fn projectile_box_is_10_units_inclusive() {
    let bullets = vec![bullet_at(10_000, 0)];
    let mut enemies = vec![Enemy { x_mu: 0, y_mu: 0, sprite: 30 }];
    let score = resolve_bullet_hits(&bullets, &mut enemies, 5);
    assert_eq!(score, 6);
    assert!(enemies.is_empty());

    let bullets = vec![bullet_at(10_001, 0)];
    let mut enemies = vec![Enemy { x_mu: 0, y_mu: 0, sprite: 30 }];
    let score = resolve_bullet_hits(&bullets, &mut enemies, 5);
    assert_eq!(score, 5);
    assert_eq!(enemies.len(), 1);
}

#[test]
fn two_projectiles_on_one_enemy_score_twice() {
    // The known same-tick edge case: both pairs count before the
    // despawn is applied.
    let bullets = vec![bullet_at(0, 0), bullet_at(5_000, 0)];
    let mut enemies = vec![Enemy { x_mu: 0, y_mu: 0, sprite: 30 }];
    let score = resolve_bullet_hits(&bullets, &mut enemies, 0);
    assert_eq!(score, 2);
    assert!(enemies.is_empty());
}

#[test]
fn bullet_flies_along_its_direction() {
    let mut b = bullet_at(0, 0);
    b.dir_x_milli = 1_000;
    b.dir_y_milli = 0;
    update_bullet(&mut b, 100);
    // 2000 units per second for a tenth of a second.
    assert_eq!(b.x_mu, 200_000);
    assert_eq!(b.y_mu, 0);
    assert_eq!(b.age_ms, 100);
}

#[test]
fn aiming_at_the_vehicle_itself_falls_back_to_its_forward_vector() {
    let b = spawn_bullet(150_000, 50_000, 150_000, 50_000, 0);
    assert_eq!((b.dir_x_milli, b.dir_y_milli), (0, 1_000));
    let b = spawn_bullet(0, 0, 3_000, 4_000, 0);
    assert_eq!((b.dir_x_milli, b.dir_y_milli), (600, 800));
}

#[test]
fn bullets_expire_after_their_lifetime() {
    let mut bullets = vec![bullet_at(0, 0), bullet_at(1, 1), bullet_at(2, 2)];
    bullets[1].age_ms = 1_000;
    bullets[2].age_ms = 1_001;
    despawn_expired_bullets(&mut bullets);
    assert_eq!(bullets.len(), 2);
    assert_eq!(bullets[0].x_mu, 0);
    assert_eq!(bullets[1].x_mu, 1);
}
