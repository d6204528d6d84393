use zombie_road::rng::SimRng;
use zombie_road::road::{generate_road, DecorKind, ObstacleKind, ROAD_TOP_ROW, ROAD_WIDTH_TILES, ROW_COUNT};

#[test]
fn road_offsets_are_segmented_and_continuous() {
    let mut rng = SimRng::from_seed(1);
    let layout = generate_road(&mut rng);
    assert_eq!(layout.offsets.len(), ROW_COUNT);
    assert_eq!(layout.offsets[0], 0);
    for k in 1..layout.offsets.len() {
        let d = layout.offsets[k] - layout.offsets[k - 1];
        assert!(-1 <= d && d <= 1);
        if k % 5 != 0 || k == 610 {
            assert_eq!(d, 0);
        }
    }
}

#[test]
fn every_row_is_a_contiguous_run() {
    let mut rng = SimRng::from_seed(2);
    let layout = generate_road(&mut rng);
    for r in 0..layout.offsets.len() {
        let j = r as i32 - 10;
        let off = layout.offsets[r];
        for i in 0..=ROAD_WIDTH_TILES {
            assert!(layout.tiles.contains(off + i, j));
        }
        assert!(!layout.tiles.contains(off - 1, j));
        assert!(!layout.tiles.contains(off + ROAD_WIDTH_TILES + 1, j));
    }
}

#[test]
fn tile_index_size_is_full_grid() {
    let mut rng = SimRng::from_seed(3);
    let layout = generate_road(&mut rng);
    // 611 rows of 6 tiles each; the capping rows collapse nothing.
    assert_eq!(layout.tiles.len(), 611 * 6);
}

#[test]
fn same_seed_reproduces_the_road() {
    let mut rng_a = SimRng::from_seed(42);
    let mut rng_b = SimRng::from_seed(42);
    let a = generate_road(&mut rng_a);
    let b = generate_road(&mut rng_b);
    assert_eq!(a.offsets, b.offsets);
    assert_eq!(a.obstacles, b.obstacles);
    assert_eq!(a.decorations, b.decorations);
    assert_eq!(a.curves, b.curves);
    assert_eq!(a.tiles.len(), b.tiles.len());
    for r in 0..a.offsets.len() {
        let j = r as i32 - 10;
        for i in 0..=ROAD_WIDTH_TILES {
            assert_eq!(
                a.tiles.contains(a.offsets[r] + i, j),
                b.tiles.contains(b.offsets[r] + i, j)
            );
        }
    }
}

#[test]
fn different_seeds_give_different_roads() {
    let mut rng_a = SimRng::from_seed(4);
    let mut rng_b = SimRng::from_seed(5);
    let a = generate_road(&mut rng_a);
    let b = generate_road(&mut rng_b);
    assert!(a.offsets != b.offsets || a.obstacles != b.obstacles || a.decorations != b.decorations);
}

#[test]
fn obstacles_sit_on_road_tiles_past_the_start() {
    let mut rng = SimRng::from_seed(6);
    let layout = generate_road(&mut rng);
    assert!(!layout.obstacles.is_empty());
    for ob in layout.obstacles.iter() {
        assert!(ob.row > 30 && ob.row <= ROAD_TOP_ROW);
        let off = layout.offsets[(ob.row + 10) as usize];
        assert!(off <= ob.tile_x && ob.tile_x <= off + 3);
        assert!(layout.tiles.contains(ob.tile_x, ob.row));
    }
}

#[test]
fn obstacle_kind_draws_weight_the_heaviest_model() {
    assert_eq!(ObstacleKind::from_draws(0, 0), ObstacleKind::Car1);
    assert_eq!(ObstacleKind::from_draws(699, 1), ObstacleKind::Car2);
    assert_eq!(ObstacleKind::from_draws(699, 2), ObstacleKind::Car3);
    assert_eq!(ObstacleKind::from_draws(700, 0), ObstacleKind::Car3);
    assert_eq!(ObstacleKind::from_draws(999, 1), ObstacleKind::Car3);
}

#[test]
fn obstacle_kinds_map_to_their_sprites() {
    assert_eq!(ObstacleKind::Car1.sprite_idx(), 60);
    assert_eq!(ObstacleKind::Car2.sprite_idx(), 61);
    assert_eq!(ObstacleKind::Car3.sprite_idx(), 62);
}

#[test]
fn decorations_stay_off_the_road() {
    let mut rng = SimRng::from_seed(7);
    let layout = generate_road(&mut rng);
    let mut caps = 0;
    for d in layout.decorations.iter() {
        assert!(-10 <= d.row && d.row <= ROAD_TOP_ROW);
        match d.kind {
            DecorKind::Roadside => {
                let off = layout.offsets[(d.row + 10) as usize] as i64;
                assert!(d.x_mu < off * 80_000 || d.x_mu > (off + 5) * 80_000);
            }
            DecorKind::Cap => {
                assert!(d.row == ROAD_TOP_ROW || d.row == ROAD_TOP_ROW - 1);
                caps += 1;
            }
        }
    }
    // Two full-width capping rows.
    assert_eq!(caps, 12);
}
