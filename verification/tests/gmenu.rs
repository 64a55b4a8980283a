use devilutionx::gmenu::{
    create_options_menu, slider_get_position, slider_set_from_position, GMenu, MenuItem,
    MenuItemFlags, GMENU_ITEM_HEIGHT, GMENU_TOP, SLIDER_ITEM_WIDTH, SLIDER_STEPS,
};

#[test]
fn test_menu_item_flags_contains() {
    let flags = MenuItemFlags(MenuItemFlags::enabled().0 | MenuItemFlags::slider().0);
    assert!(flags.contains(MenuItemFlags::enabled()));
    assert!(flags.contains(MenuItemFlags::slider()));
    assert!(!flags.contains(MenuItemFlags::highlighted()));
}

#[test]
fn test_menu_item_flags_set_clear() {
    let mut flags = MenuItemFlags::enabled();

    flags.set(MenuItemFlags::highlighted());
    assert!(flags.contains(MenuItemFlags::highlighted()));

    flags.clear(MenuItemFlags::highlighted());
    assert!(!flags.contains(MenuItemFlags::highlighted()));
}

#[test]
fn test_menu_item_new() {
    let item = MenuItem::new("Test");
    assert_eq!(item.text, "Test");
    assert!(item.is_enabled());
    assert!(!item.is_slider());
    assert!(!item.is_highlighted());
}

#[test]
fn test_menu_item_slider() {
    let item = MenuItem::slider("Volume", 5, 10);
    assert_eq!(item.text, "Volume");
    assert!(item.is_slider());
    assert_eq!(item.value, 5);
    assert_eq!(item.max_value, 10);
}

#[test]
fn test_menu_item_set_enabled() {
    let mut item = MenuItem::new("Test");
    assert!(item.is_enabled());

    item.set_enabled(false);
    assert!(!item.is_enabled());

    item.set_enabled(true);
    assert!(item.is_enabled());
}

#[test]
fn test_gmenu_new() {
    let menu = GMenu::new();
    assert_eq!(menu.item_count(), 0);
    assert!(!menu.is_visible());
    assert_eq!(menu.selected_index(), 0);
}

#[test]
fn test_gmenu_add_item() {
    let mut menu = GMenu::new();
    menu.add_item(MenuItem::new("Item 1"));
    menu.add_item(MenuItem::new("Item 2"));

    assert_eq!(menu.item_count(), 2);
    assert_eq!(menu.item(0).unwrap().text, "Item 1");
    assert_eq!(menu.item(1).unwrap().text, "Item 2");
}

#[test]
fn test_gmenu_clear() {
    let mut menu = GMenu::new();
    menu.add_item(MenuItem::new("Item 1"));
    menu.add_item(MenuItem::new("Item 2"));

    menu.clear();
    assert_eq!(menu.item_count(), 0);
}

#[test]
fn test_gmenu_move_up_down() {
    let mut menu = GMenu::new();
    menu.add_item(MenuItem::new("Item 0"));
    menu.add_item(MenuItem::new("Item 1"));
    menu.add_item(MenuItem::new("Item 2"));

    assert_eq!(menu.selected_index(), 0);

    menu.move_down();
    assert_eq!(menu.selected_index(), 1);

    menu.move_down();
    assert_eq!(menu.selected_index(), 2);

    menu.move_down();
    assert_eq!(menu.selected_index(), 0);

    menu.move_up();
    assert_eq!(menu.selected_index(), 2);
}

#[test]
fn test_gmenu_skip_disabled() {
    let mut menu = GMenu::new();
    menu.add_item(MenuItem::new("Item 0"));

    let mut disabled = MenuItem::new("Item 1");
    disabled.set_enabled(false);
    menu.add_item(disabled);

    menu.add_item(MenuItem::new("Item 2"));

    assert_eq!(menu.selected_index(), 0);

    menu.move_down();
    assert_eq!(menu.selected_index(), 2);
}

#[test]
fn test_gmenu_adjust_slider() {
    let mut menu = GMenu::new();
    menu.add_item(MenuItem::slider("Volume", 5, 10));

    menu.adjust_slider(1);
    assert_eq!(menu.selected_item().unwrap().value, 6);

    menu.adjust_slider(-2);
    assert_eq!(menu.selected_item().unwrap().value, 4);

    menu.adjust_slider(100);
    assert_eq!(menu.selected_item().unwrap().value, 10);

    menu.adjust_slider(-100);
    assert_eq!(menu.selected_item().unwrap().value, 0);
}

#[test]
fn test_gmenu_visibility() {
    let mut menu = GMenu::new();
    assert!(!menu.is_visible());

    menu.show();
    assert!(menu.is_visible());

    menu.hide_menu();
    assert!(!menu.is_visible());

    menu.toggle();
    assert!(menu.is_visible());

    menu.toggle();
    assert!(!menu.is_visible());
}

#[test]
fn test_gmenu_position() {
    let mut menu = GMenu::new();
    assert_eq!(menu.position(), (0, GMENU_TOP));

    menu.set_position(100, 200);
    assert_eq!(menu.position(), (100, 200));
}

#[test]
fn test_gmenu_item_y() {
    let menu = GMenu::new();
    assert_eq!(menu.item_y(0), GMENU_TOP);
    assert_eq!(menu.item_y(1), GMENU_TOP + GMENU_ITEM_HEIGHT);
    assert_eq!(menu.item_y(2), GMENU_TOP + 2 * GMENU_ITEM_HEIGHT);
}

#[test]
fn test_create_options_menu() {
    let menu = create_options_menu();
    assert_eq!(menu.item_count(), 4);

    assert!(menu.item(0).unwrap().is_slider());
    assert!(menu.item(1).unwrap().is_slider());
    assert!(menu.item(2).unwrap().is_slider());

    assert!(!menu.item(3).unwrap().is_slider());
}

#[test]
fn test_slider_position_calculation() {
    let item = MenuItem::slider("Test", 5, 10);

    let pos = slider_get_position(&item, 100);
    assert_eq!(pos, 50);

    let item2 = MenuItem::slider("Test", 0, 10);
    let pos2 = slider_get_position(&item2, 100);
    assert_eq!(pos2, 0);

    let item3 = MenuItem::slider("Test", 10, 10);
    let pos3 = slider_get_position(&item3, 100);
    assert_eq!(pos3, 100);
}

#[test]
fn test_slider_set_from_position() {
    let mut item = MenuItem::slider("Test", 0, 10);

    slider_set_from_position(&mut item, 50, 100);
    assert_eq!(item.value, 5);

    slider_set_from_position(&mut item, 0, 100);
    assert_eq!(item.value, 0);

    slider_set_from_position(&mut item, 100, 100);
    assert_eq!(item.value, 10);

    slider_set_from_position(&mut item, 150, 100);
    assert_eq!(item.value, 10);
}

#[test]
fn gmenu_test_constants() {
    assert_eq!(SLIDER_ITEM_WIDTH, 490);
    assert_eq!(GMENU_TOP, 117);
    assert_eq!(GMENU_ITEM_HEIGHT, 45);
    assert_eq!(SLIDER_STEPS, 10);
}

#[test]
fn flags_toggle_twice_restores() {
    let mut flags = MenuItemFlags(MenuItemFlags::enabled().0 | MenuItemFlags::slider().0);
    let before = flags.0;
    flags.toggle(MenuItemFlags::highlighted());
    assert!(flags.contains(MenuItemFlags::highlighted()));
    flags.toggle(MenuItemFlags::highlighted());
    assert_eq!(flags.0, before);
}

#[test]
fn flags_values_and_disabled_item() {
    assert_eq!(MenuItemFlags::enabled().0, 1);
    assert_eq!(MenuItemFlags::slider().0, 2);
    assert_eq!(MenuItemFlags::select().0, 3);
    assert_eq!(MenuItemFlags::selectable().0, 4);
    assert_eq!(MenuItemFlags::highlighted().0, 8);
    assert_eq!(MenuItemFlags::disabled().0, 16);
    let mut item = MenuItem::new("x");
    item.flags.set(MenuItemFlags::disabled());
    assert!(!item.is_enabled());
}

#[test]
fn callback_item_reports_its_action_on_select() {
    let mut menu = GMenu::new();
    menu.add_item(MenuItem::with_callback("Save", 7));
    menu.add_item(MenuItem::slider("Volume", 3, 10));
    assert_eq!(menu.item(0).unwrap().invoke(), Some(7));
    assert_eq!(menu.select_current(), Some(7));
    menu.set_selected_index(1);
    assert_eq!(menu.select_current(), None);
    assert!(menu.item(1).unwrap().is_highlighted());
    assert!(!menu.item(0).unwrap().is_highlighted());
}

#[test]
fn click_selects_row_and_reports_action() {
    let mut menu = GMenu::new();
    menu.add_item(MenuItem::slider("Volume", 3, 10));
    menu.add_item(MenuItem::with_callback("Quit", 2));
    assert_eq!(menu.handle_click(0, GMENU_TOP + GMENU_ITEM_HEIGHT), (false, None));
    menu.show();
    assert_eq!(menu.handle_click(0, GMENU_TOP - 1), (false, None));
    assert_eq!(menu.handle_click(0, GMENU_TOP + GMENU_ITEM_HEIGHT + 3), (true, Some(2)));
    assert_eq!(menu.selected_index(), 1);
    assert_eq!(menu.handle_click(0, GMENU_TOP), (true, None));
    assert_eq!(menu.selected_index(), 0);
    menu.handle_mouse_up();
    assert_eq!(menu.handle_click(0, GMENU_TOP + 5 * GMENU_ITEM_HEIGHT), (false, None));
}

#[test]
fn move_down_then_up_returns_to_start() {
    let mut menu = GMenu::new();
    menu.add_item(MenuItem::new("a"));
    let mut b = MenuItem::new("b");
    b.set_enabled(false);
    menu.add_item(b);
    menu.add_item(MenuItem::new("c"));
    menu.move_down();
    menu.move_up();
    assert_eq!(menu.selected_index(), 0);
}

#[test]
fn all_disabled_move_stays() {
    let mut menu = GMenu::new();
    let mut a = MenuItem::new("a");
    a.set_enabled(false);
    let mut b = MenuItem::new("b");
    b.set_enabled(false);
    menu.add_item(a);
    menu.add_item(b);
    menu.move_down();
    assert_eq!(menu.selected_index(), 0);
    menu.move_up();
    assert_eq!(menu.selected_index(), 0);
    let mut empty = GMenu::new();
    empty.move_down();
    empty.move_up();
    assert_eq!(empty.selected_index(), 0);
}

#[test]
fn slider_steps_and_width() {
    let mut menu = GMenu::new();
    menu.add_item(MenuItem::slider("v", 9, 10));
    menu.slider_right();
    menu.slider_right();
    assert_eq!(menu.selected_item().unwrap().value, 10);
    menu.slider_left();
    assert_eq!(menu.selected_item().unwrap().value, 9);
    assert_eq!(menu.width(), SLIDER_ITEM_WIDTH);
    menu.set_width(300);
    assert_eq!(menu.width(), 300);
    menu.selected_item_mut().unwrap().value = 2;
    assert_eq!(menu.items()[0].value, 2);
    menu.items_mut()[0].value = 4;
    menu.item_mut(0).unwrap().max_value = 20;
    assert_eq!(menu.item(0).unwrap().value, 4);
    assert_eq!(menu.item(0).unwrap().max_value, 20);
    assert!(menu.item(1).is_none());
}

#[test]
fn slider_edge_cases() {
    let zero = MenuItem::slider("z", 3, 0);
    assert_eq!(slider_get_position(&zero, 100), 0);
    let mut item = MenuItem::slider("t", 4, 10);
    slider_set_from_position(&mut item, 50, 0);
    assert_eq!(item.value, 4);
    slider_set_from_position(&mut item, -30, 100);
    assert_eq!(item.value, 0);
    let neg = MenuItem::slider("n", -7, 10);
    assert_eq!(slider_get_position(&neg, 3), -2);
}
