use devilutionx::input::{
    GameAction, InputSystem, Point, KEY_A, KEY_D, KEY_DOWN, KEY_E, KEY_ESCAPE, KEY_F11, KEY_LEFT,
    KEY_S, KEY_SPACE, KEY_UP, KEY_W, MOUSE_LEFT, MOUSE_RIGHT,
};

#[test]
fn test_key_press_detection() {
    let mut input = InputSystem::new();

    input.begin_frame();
    input.on_key_down(KEY_W);

    assert!(input.is_key_down(KEY_W));
    assert!(input.is_key_pressed(KEY_W));

    input.begin_frame();
    assert!(input.is_key_down(KEY_W));
    assert!(!input.is_key_pressed(KEY_W));
}

#[test]
fn test_movement_actions() {
    let mut input = InputSystem::new();

    input.begin_frame();
    input.on_key_down(KEY_W);
    input.on_key_down(KEY_D);

    let actions = input.get_actions();
    assert!(actions.contains(&GameAction::MoveUpRight));
}

#[test]
fn test_mouse_position() {
    let mut input = InputSystem::new();

    input.on_mouse_move(100, 200);
    assert_eq!(input.mouse_pos(), Point::new(100, 200));

    input.begin_frame();
    input.on_mouse_move(150, 250);
    let delta = input.mouse_delta();
    assert_eq!(delta.x, 50);
    assert_eq!(delta.y, 50);
}

#[test]
fn key_codes_match_sdl() {
    assert_eq!(KEY_W, 'w' as i32);
    assert_eq!(KEY_A, 'a' as i32);
    assert_eq!(KEY_S, 's' as i32);
    assert_eq!(KEY_D, 'd' as i32);
    assert_eq!(KEY_SPACE, ' ' as i32);
    assert_eq!(KEY_ESCAPE, 0x1b);
    assert_eq!(KEY_F11, 0x4000_0044);
    assert_eq!(KEY_UP, 0x4000_0052);
    assert_eq!(KEY_DOWN, 0x4000_0051);
    assert_eq!(KEY_LEFT, 0x4000_0050);
}

#[test]
fn key_up_releases_once() {
    let mut input = InputSystem::new();
    input.on_key_down(KEY_E);
    input.on_key_down(KEY_E);
    assert!(input.is_key_pressed(KEY_E));
    input.on_key_up(KEY_E);
    assert!(!input.is_key_down(KEY_E));
    assert!(input.is_key_released(KEY_E));
    input.begin_frame();
    input.on_key_up(KEY_E);
    assert!(!input.is_key_released(KEY_E));
}

#[test]
fn opposite_keys_cancel_and_actions_keep_order() {
    let mut input = InputSystem::new();
    input.on_key_down(KEY_W);
    input.on_key_down(KEY_S);
    input.on_key_down(KEY_LEFT);
    assert_eq!(input.get_movement_direction(), (-1, 0));
    input.on_key_down(KEY_SPACE);
    input.on_key_down(KEY_ESCAPE);
    input.on_mouse_button_down(MOUSE_RIGHT);
    input.on_mouse_button_down(MOUSE_LEFT);
    assert_eq!(
        input.get_actions(),
        vec![
            GameAction::MoveLeft,
            GameAction::Attack,
            GameAction::Quit,
            GameAction::PrimaryAction,
            GameAction::SecondaryAction
        ]
    );
    input.begin_frame();
    assert_eq!(input.get_actions(), vec![GameAction::MoveLeft]);
    assert!(input.is_mouse_button_down(MOUSE_LEFT));
    assert!(!input.is_mouse_button_pressed(MOUSE_LEFT));
    input.on_mouse_button_up(MOUSE_LEFT);
    assert!(!input.is_mouse_button_down(MOUSE_LEFT));
}

#[test]
fn no_keys_no_actions() {
    let input = InputSystem::default();
    assert!(input.get_actions().is_empty());
    assert_eq!(input.get_movement_direction(), (0, 0));
    assert_eq!(input.mouse_delta(), Point::default());
    let mut diag = InputSystem::new();
    diag.on_key_down(KEY_DOWN);
    diag.on_key_down(KEY_A);
    assert_eq!(diag.get_actions(), vec![GameAction::MoveDownLeft]);
}
