use devilutionx::hud::circle_half_width;
use devilutionx::hud::{MAX_PLAYER_LEVEL, XP_THRESHOLDS};

#[test]
fn test_xp_threshold_table_size() {
    assert_eq!(XP_THRESHOLDS.len(), 50);
    for w in XP_THRESHOLDS.windows(2) {
        assert!(w[1] > w[0], "XP table not monotonic at {:?}", w);
    }
}

#[test]
fn xp_table_ends() {
    assert_eq!(XP_THRESHOLDS[0], 2000);
    assert_eq!(XP_THRESHOLDS[49], 1583495809);
    assert_eq!(MAX_PLAYER_LEVEL, 50);
}

#[test]
fn test_circle_half_width() {
    assert!(circle_half_width(29, 0) == 29);
    assert_eq!(circle_half_width(29, 29), 0);
    assert_eq!(circle_half_width(29, 30), 0);
    assert_eq!(circle_half_width(29, 5), circle_half_width(29, -5));
}

#[test]
fn circle_half_width_rounds_down() {
    // 29 * 29 - 20 * 20 = 441 = 21 * 21; 29 * 29 - 21 * 21 = 400 = 20 * 20.
    assert_eq!(circle_half_width(29, 20), 21);
    assert_eq!(circle_half_width(29, 21), 20);
    // 29 * 29 - 28 * 28 = 57: 7 * 7 = 49 <= 57 < 64.
    assert_eq!(circle_half_width(29, -28), 7);
    assert_eq!(circle_half_width(0, 0), 0);
    assert_eq!(circle_half_width(-3, 1), 0);
    assert_eq!(circle_half_width(i32::MAX, 0), i32::MAX);
}
