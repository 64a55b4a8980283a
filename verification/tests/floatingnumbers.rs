use devilutionx::combat_system::DamageType;
use devilutionx::floatingnumbers::{
    damage_color, font_size_for_damage, format_damage, FloatingColor, FloatingNumber,
    FloatingNumbers, FontSize, FLOATING_LIFETIME_TICKS, FLOATING_MERGE_TICKS,
};
use devilutionx::types::Point;

#[test]
fn test_format_damage_fixed_point() {
    assert_eq!(format_damage(32), "0.50");
    assert_eq!(format_damage(1), "0.02");
    assert_eq!(format_damage(64), "1");
    assert_eq!(format_damage(128), "2");
    assert_eq!(format_damage(0), "0");
}

#[test]
fn test_font_size_thresholds() {
    assert_eq!(font_size_for_damage(64), FontSize::Small);
    assert_eq!(font_size_for_damage(6400), FontSize::Medium);
    assert_eq!(font_size_for_damage(12800), FontSize::Medium);
    assert_eq!(font_size_for_damage(19200), FontSize::Large);
}

#[test]
fn test_colors_match_cpp() {
    assert_eq!(damage_color(DamageType::Physical), FloatingColor::Gold);
    assert_eq!(damage_color(DamageType::Fire), FloatingColor::UiSilver);
    assert_eq!(damage_color(DamageType::Lightning), FloatingColor::Blue);
    assert_eq!(damage_color(DamageType::Magic), FloatingColor::Orange);
}

#[test]
fn test_floating_number_struct() {
    let n = FloatingNumber::new(DamageType::Physical, 96);
    assert_eq!(n.text, "1");
    assert_eq!(n.font_size, FontSize::Small);
    assert_eq!(n.color, FloatingColor::Gold);
    let n2 = FloatingNumber::new(DamageType::Lightning, 6400);
    assert_eq!(n2.text, "100");
    assert_eq!(n2.font_size, FontSize::Medium);
    assert_eq!(n2.color, FloatingColor::Blue);
}

#[test]
fn test_floating_numbers_merge_and_expire() {
    let mut queue = FloatingNumbers::new();
    let p = Point::new(10, 20);
    let n1 = FloatingNumber::new(DamageType::Physical, 128);

    queue.add(100, p, n1.clone(), 7);
    assert_eq!(queue.len(), 1);

    let n2 = FloatingNumber::new(DamageType::Fire, 192);
    queue.add(102, Point::new(11, 20), n2.clone(), 7);
    assert_eq!(queue.len(), 1, "same-id merge keeps one entry");
    let head = queue.iter().next().unwrap();
    assert_eq!(head.number.value, 192, "merged text/value is updated");

    queue.add(102, p, n1, 8);
    assert_eq!(queue.len(), 2);

    queue.clear_expired(100 + FLOATING_LIFETIME_TICKS - 1);
    assert_eq!(queue.len(), 2);
    queue.clear_expired(100 + FLOATING_LIFETIME_TICKS + 3);
    assert_eq!(queue.len(), 0, "expired numbers are removed");
}

#[test]
fn format_rounds_half_to_even_and_negatives_floor() {
    assert_eq!(format_damage(63), "0.98");
    assert_eq!(format_damage(2), "0.03");
    assert_eq!(format_damage(-1), "-1");
    assert_eq!(format_damage(-64), "-1");
    assert_eq!(format_damage(-65), "-2");
    assert_eq!(format_damage(i32::MAX), (i32::MAX >> 6).to_string());
    assert_eq!(format_damage(i32::MIN), (i32::MIN >> 6).to_string());
    for v in 1..64 {
        let expected = format!("{:.2}", v as f64 / 64.0);
        assert_eq!(format_damage(v), expected, "value {}", v);
    }
}

#[test]
fn font_pixels_and_boundaries() {
    assert_eq!(FontSize::Small.pixels(), 12);
    assert_eq!(FontSize::Medium.pixels(), 24);
    assert_eq!(FontSize::Large.pixels(), 30);
    assert_eq!(font_size_for_damage(6399), FontSize::Small);
    assert_eq!(font_size_for_damage(19199), FontSize::Medium);
    assert_eq!(font_size_for_damage(-100), FontSize::Small);
}

#[test]
fn merge_window_and_zero_id() {
    let mut queue = FloatingNumbers::new();
    let p = Point::new(1, 1);
    queue.add(10, p, FloatingNumber::new(DamageType::Magic, 64), 0);
    queue.add(10, p, FloatingNumber::new(DamageType::Magic, 64), 0);
    assert_eq!(queue.len(), 2, "id 0 never merges");
    queue.add(10, p, FloatingNumber::new(DamageType::Magic, 64), 5);
    queue.add(10 + FLOATING_MERGE_TICKS + 1, p, FloatingNumber::new(DamageType::Fire, 64), 5);
    assert_eq!(queue.len(), 4, "outside the window a new entry is appended");
    queue.add(10 + FLOATING_MERGE_TICKS + 2, Point::new(2, 3), FloatingNumber::new(DamageType::Fire, 640), 5);
    assert_eq!(queue.len(), 4);
    let merged: Vec<_> = queue.iter().filter(|e| e.number.value == 640).collect();
    assert_eq!(merged.len(), 1);
    assert_eq!(merged[0].start_pos, Point::new(2, 3));
    assert_eq!(merged[0].expire_tick, 10 + FLOATING_MERGE_TICKS + 1 + FLOATING_LIFETIME_TICKS);
    assert!(!queue.is_empty());
    queue.clear();
    assert!(queue.is_empty());
}

#[test]
fn clear_expired_keeps_order_of_survivors() {
    let mut queue = FloatingNumbers::new();
    let p = Point::new(0, 0);
    queue.add(0, p, FloatingNumber::new(DamageType::Physical, 64), 0);
    queue.add(50, p, FloatingNumber::new(DamageType::Physical, 128), 0);
    queue.add(20, p, FloatingNumber::new(DamageType::Physical, 192), 0);
    queue.clear_expired(160);
    let values: Vec<i32> = queue.iter().map(|e| e.number.value).collect();
    assert_eq!(values, vec![128, 192]);
    for e in queue.iter() {
        assert!(e.expire_tick > 160);
    }
}
