use devilutionx::gamemenu::{GameMenu, GameMenuState, MenuItem, VOLUME_MAX, VOLUME_MIN};
use devilutionx::gamemenu::{gamemenu_handle_previous, gamemenu_off, gamemenu_on};

#[test]
fn test_menu_item_creation() {
    let item = MenuItem::new("Test");
    assert!(item.is_enabled());
    assert!(!item.is_slider());
    assert_eq!(item.text, Some("Test".to_string()));
}

#[test]
fn test_slider_creation() {
    let slider = MenuItem::slider("Volume", 0, 100, 50);
    assert!(slider.is_enabled());
    assert!(slider.is_slider());
    assert_eq!(slider.slider_value, 50);
    let percent = (slider.slider_value - slider.slider_min) as f32
        / (slider.slider_max - slider.slider_min) as f32;
    assert_eq!(percent, 0.5);
}

#[test]
fn test_game_menu_creation() {
    let menu = GameMenu::new(false);
    assert!(!menu.is_open());
    assert!(!menu.main_items.is_empty());
}

#[test]
fn test_menu_open_close() {
    let mut menu = GameMenu::new(false);

    menu.open();
    assert!(menu.is_open());
    assert_eq!(menu.state, GameMenuState::Main);

    menu.close();
    assert!(!menu.is_open());
    assert_eq!(menu.state, GameMenuState::Closed);
}

#[test]
fn test_menu_toggle() {
    let mut menu = GameMenu::new(false);

    menu.toggle();
    assert!(menu.is_open());

    menu.toggle();
    assert!(!menu.is_open());
}

#[test]
fn test_options_menu() {
    let mut menu = GameMenu::new(false);
    menu.open();
    menu.open_options();

    assert_eq!(menu.state, GameMenuState::Options);
    assert!(!menu.options_items.is_empty());
}

#[test]
fn test_menu_navigation() {
    let mut menu = GameMenu::new(false);
    menu.open();

    let initial = menu.selected_index;
    menu.select_next();
    assert_ne!(menu.selected_index, initial);

    menu.select_prev();
    assert_eq!(menu.selected_index, initial);
}

#[test]
fn test_slider_adjustment() {
    let mut menu = GameMenu::new(false);
    menu.open();
    menu.open_options();

    menu.selected_index = 0;
    let initial_volume = menu.music_volume;
    menu.adjust_slider(1);
    if menu.music_volume == initial_volume {
        menu.adjust_slider(-1);
    }
    assert_ne!(menu.music_volume, initial_volume, "music slider should respond to adjustment");
}

#[test]
fn test_go_back() {
    let mut menu = GameMenu::new(false);
    menu.open();
    menu.open_options();

    assert_eq!(menu.state, GameMenuState::Options);

    menu.go_back();
    assert_eq!(menu.state, GameMenuState::Main);

    menu.go_back();
    assert_eq!(menu.state, GameMenuState::Closed);
}

#[test]
fn test_multiplayer_menu() {
    let menu = GameMenu::new(true);

    assert!(menu.main_items.len() < 5);

    assert!(!menu.options_items[3].is_enabled());
}

#[test]
fn new_menu_defaults() {
    let menu = GameMenu::new(false);
    assert_eq!(menu.state, GameMenuState::Closed);
    assert_eq!(menu.main_items.len(), 5);
    assert_eq!(menu.options_items.len(), 5);
    assert_eq!(menu.music_volume, VOLUME_MAX);
    assert_eq!(menu.sound_volume, VOLUME_MAX);
    assert_eq!(menu.brightness, 50);
    assert_eq!(menu.game_speed, 20);
    assert!(menu.music_on && menu.sound_on);
    assert_eq!(menu.current_items().len(), 0);
    assert!(menu.selected_item().is_none());
}

#[test]
fn slider_step_is_a_twentieth_of_range_and_clamps() {
    let mut menu = GameMenu::new(false);
    menu.open();
    menu.open_options();
    menu.selected_index = 0;
    menu.adjust_slider(-1);
    assert_eq!(menu.music_volume, 95);
    menu.adjust_slider(-100);
    assert_eq!(menu.music_volume, VOLUME_MIN);
    assert!(!menu.music_on);
    menu.selected_index = 2;
    menu.adjust_slider(1);
    assert_eq!(menu.brightness, 55);
    menu.selected_index = 3;
    menu.adjust_slider(1);
    assert_eq!(menu.game_speed, 25);
}

#[test]
fn adjust_slider_ignored_outside_options() {
    let mut menu = GameMenu::new(false);
    menu.open();
    menu.adjust_slider(-1);
    assert_eq!(menu.music_volume, VOLUME_MAX);
}

#[test]
fn toggles_switch_volume_between_ends() {
    let mut menu = GameMenu::new(false);
    menu.toggle_music();
    assert!(!menu.music_on);
    assert_eq!(menu.music_volume, VOLUME_MIN);
    assert_eq!(menu.options_items[0].slider_value, VOLUME_MIN);
    menu.toggle_music();
    assert_eq!(menu.music_volume, VOLUME_MAX);
    menu.toggle_sound();
    assert!(!menu.sound_on);
    assert_eq!(menu.sound_volume, VOLUME_MIN);
    assert_eq!(menu.options_items[1].slider_value, VOLUME_MIN);
}

#[test]
fn navigation_wraps_around() {
    let mut menu = GameMenu::new(false);
    menu.open();
    menu.select_prev();
    assert_eq!(menu.selected_index, 4);
    menu.select_next();
    assert_eq!(menu.selected_index, 0);
    assert_eq!(menu.selected_item().unwrap().text, Some("选项".to_string()));
}

#[test]
fn item_flags_and_slider_value() {
    let mut item = MenuItem::slider("x", 10, 20, 15);
    item.set_slider_value(50);
    assert_eq!(item.slider_value, 20);
    item.set_slider_value(-3);
    assert_eq!(item.slider_value, 10);
    item.set_enabled(false);
    assert!(!item.is_enabled());
    item.set_enabled(true);
    assert!(item.is_enabled());
    let sep = MenuItem::separator();
    assert!(!sep.is_enabled());
    assert_eq!(sep.text, None);
}

#[test]
fn global_menu_on_off_and_toggle() {
    let mut open = false;
    let mut menu: Option<GameMenu> = None;
    gamemenu_on(&mut open, &mut menu);
    assert!(open);
    assert!(menu.is_none());
    gamemenu_handle_previous(&mut open, &mut menu);
    assert!(open);
    menu = Some(GameMenu::new(false));
    gamemenu_on(&mut open, &mut menu);
    assert!(menu.as_ref().unwrap().is_open());
    gamemenu_handle_previous(&mut open, &mut menu);
    assert!(!open);
    assert!(!menu.as_ref().unwrap().is_open());
    gamemenu_handle_previous(&mut open, &mut menu);
    assert!(open);
    gamemenu_off(&mut open, &mut menu);
    assert!(!open);
    assert_eq!(menu.as_ref().unwrap().state, GameMenuState::Closed);
}
