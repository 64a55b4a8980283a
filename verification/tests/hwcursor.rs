use devilutionx::hwcursor::{
    is_hardware_cursor_enabled, is_hardware_cursor_visible, CursorInfo, CursorType,
    HardwareCursorManager, HotpointPosition,
};
use devilutionx::hwcursor::{
    do_reinitialize_hardware_cursor, get_current_cursor_info, is_hardware_cursor,
    prepare_hardware_cursor, reinitialize_hardware_cursor, set_current_cursor_info,
    set_hardware_cursor, set_hardware_cursor_visible,
};

#[test]
fn test_cursor_info_creation() {
    let ui = CursorInfo::user_interface_cursor();
    assert_eq!(ui.cursor_type(), CursorType::UserInterface);
    assert!(!ui.enabled());

    let game = CursorInfo::game_cursor(5);
    assert_eq!(game.cursor_type(), CursorType::Game);
    assert_eq!(game.id(), 5);

    let unknown = CursorInfo::unknown_cursor();
    assert_eq!(unknown.cursor_type(), CursorType::Unknown);
}

#[test]
fn test_cursor_info_equality() {
    let game1 = CursorInfo::game_cursor(5);
    let game2 = CursorInfo::game_cursor(5);
    let game3 = CursorInfo::game_cursor(10);

    assert_eq!(game1, game2);
    assert_ne!(game1, game3);

    let ui1 = CursorInfo::user_interface_cursor();
    let ui2 = CursorInfo::user_interface_cursor();
    assert_eq!(ui1, ui2);

    assert_ne!(game1, ui1);
}

#[test]
fn test_cursor_enabled_state() {
    let mut cursor = CursorInfo::game_cursor(1);
    assert!(!cursor.enabled());

    cursor.set_enabled(true);
    assert!(cursor.enabled());

    cursor.set_enabled(false);
    assert!(!cursor.enabled());
}

#[test]
fn test_cursor_reinitialization() {
    let mut cursor = CursorInfo::game_cursor(1);
    assert!(!cursor.needs_reinitialization());

    cursor.set_needs_reinitialization(true);
    assert!(cursor.needs_reinitialization());

    cursor.set_needs_reinitialization(false);
    assert!(!cursor.needs_reinitialization());
}

#[test]
fn equality_ignores_state_flags() {
    let mut a = CursorInfo::game_cursor(3);
    let b = CursorInfo::game_cursor(3);
    a.set_enabled(true);
    a.set_needs_reinitialization(true);
    assert_eq!(a, b);
    assert_eq!(CursorInfo::new(), CursorInfo::unknown_cursor());
    assert_eq!(CursorInfo::default(), CursorInfo::new());
    assert_eq!(CursorType::default(), CursorType::Unknown);
}

#[test]
fn manager_tracks_cursor_and_visibility() {
    let mut m = HardwareCursorManager::new();
    assert!(!m.is_visible());
    assert!(!m.is_enabled());
    let mut c = CursorInfo::game_cursor(9);
    c.set_enabled(true);
    m.set_cursor(c);
    assert!(m.is_enabled());
    assert_eq!(m.current().id(), 9);
    m.set_visible(true);
    assert!(m.is_visible());
    assert!(!is_hardware_cursor_enabled());
    assert!(!is_hardware_cursor_visible());
    assert_eq!(HotpointPosition::default(), HotpointPosition::TopLeft);
}

#[test]
fn hardware_cursor_state_functions() {
    let mut current = CursorInfo::new();
    let mut c = CursorInfo::game_cursor(4);
    c.set_enabled(true);
    c.set_needs_reinitialization(true);
    let p = prepare_hardware_cursor(c.clone());
    assert!(!p.enabled() && !p.needs_reinitialization());
    assert_eq!(p.id(), 4);
    set_current_cursor_info(&mut current, c.clone());
    assert!(is_hardware_cursor(&current));
    assert_eq!(get_current_cursor_info(&current), c);
    set_hardware_cursor(&mut current, c);
    assert!(!is_hardware_cursor(&current));
    assert_eq!(current.cursor_type(), CursorType::Game);
    reinitialize_hardware_cursor(&mut current);
    assert!(current.needs_reinitialization());
    set_hardware_cursor_visible(&mut current, false);
    assert!(current.needs_reinitialization());
    set_hardware_cursor_visible(&mut current, true);
    assert!(!current.needs_reinitialization());
    current.set_enabled(true);
    do_reinitialize_hardware_cursor(&mut current);
    assert!(!current.enabled());
    assert_eq!(current.id(), 4);
}
