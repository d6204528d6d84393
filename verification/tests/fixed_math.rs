use zombie_road::fixed::{div_ceil_i64, div_floor_i64, isqrt_u128, normalize_milli, scaled_delta};
use zombie_road::tiles::TileIndex;

#[test]
fn tile_index_answers_membership() {
    let mut t = TileIndex::new();
    assert_eq!(t.len(), 0);
    assert!(!t.contains(0, 0));
    t.insert(0, 0);
    t.insert(-3, 599);
    t.insert(-3, 599);
    assert!(t.contains(0, 0));
    assert!(t.contains(-3, 599));
    assert!(!t.contains(3, -599));
    assert!(!t.contains(599, -3));
    assert_eq!(t.len(), 2);
}

#[test]
fn floor_division_rounds_down() {
    assert_eq!(div_floor_i64(7, 2), 3);
    assert_eq!(div_floor_i64(-7, 2), -4);
    assert_eq!(div_floor_i64(-8, 2), -4);
    assert_eq!(div_floor_i64(0, 48), 0);
    assert_eq!(div_floor_i64(-1, 48), -1);
}

#[test]
fn ceil_division_rounds_up() {
    assert_eq!(div_ceil_i64(7, 2), 4);
    assert_eq!(div_ceil_i64(8, 2), 4);
    assert_eq!(div_ceil_i64(-7, 2), -3);
    assert_eq!(div_ceil_i64(0, 80_000), 0);
    assert_eq!(div_ceil_i64(1, 80_000), 1);
}

#[test]
fn integer_square_root_brackets() {
    assert_eq!(isqrt_u128(0), 0);
    assert_eq!(isqrt_u128(1), 1);
    assert_eq!(isqrt_u128(15), 3);
    assert_eq!(isqrt_u128(16), 4);
    assert_eq!(isqrt_u128(24_999_999), 4_999);
    assert_eq!(isqrt_u128(25_000_000), 5_000);
    assert_eq!(isqrt_u128(u64::MAX as u128), 4_294_967_295);
}

#[test]
fn normalize_three_four_five() {
    assert_eq!(normalize_milli(3_000, 4_000), (600, 800));
    assert_eq!(normalize_milli(-3_000, 4_000), (-600, 800));
    assert_eq!(normalize_milli(-5, 0), (-1_000, 0));
    assert_eq!(normalize_milli(0, 7), (0, 1_000));
}

#[test]
fn normalize_zero_vector_stays_zero() {
    assert_eq!(normalize_milli(0, 0), (0, 0));
}

#[test]
fn scaled_delta_floors() {
    // 1000 * 70_320 * 16 / 200_000 = 5625.6, floored.
    assert_eq!(scaled_delta(1_000, 70_320, 16, 200_000), 5_625);
    assert_eq!(scaled_delta(-1_000, 70_320, 16, 200_000), -5_626);
    assert_eq!(scaled_delta(500, 255, 0, 1_000), 0);
}
