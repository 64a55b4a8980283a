use devilutionx::help::{help_text, HelpSystem, HelpTextLine, HELP_VISIBLE_LINES};
use devilutionx::help::{display_help, help_scroll_down, help_scroll_up, init_help};

#[test]
fn test_help_system_creation() {
    let help = HelpSystem::new();
    assert!(!help.visible);
    assert_eq!(help.scroll_position, 0);
    assert!(!help.lines.is_empty());
}

#[test]
fn test_help_display_toggle() {
    let mut help = HelpSystem::new();

    assert!(!help.visible);
    help.display();
    assert!(help.visible);
    help.hide_help();
    assert!(!help.visible);
    help.toggle();
    assert!(help.visible);
}

#[test]
fn test_help_scrolling() {
    let mut help = HelpSystem::new();
    help.display();

    assert_eq!(help.scroll_position, 0);
    assert!(!help.can_scroll_up());

    help.scroll_down();
    assert_eq!(help.scroll_position, 1);
    assert!(help.can_scroll_up());

    help.scroll_up();
    assert_eq!(help.scroll_position, 0);
}

#[test]
fn test_help_page_navigation() {
    let mut help = HelpSystem::new();
    help.display();

    help.page_down();
    assert!(help.scroll_position > 0);

    help.page_up();
    assert_eq!(help.scroll_position, 0);
}

#[test]
fn test_visible_lines() {
    let help = HelpSystem::new();
    let visible: Vec<_> = help.visible_lines().iter().collect();
    assert!(visible.len() <= HELP_VISIBLE_LINES);
}

#[test]
fn test_help_text_line() {
    let normal = HelpTextLine::new("Normal text");
    assert!(!normal.is_header);

    let header = HelpTextLine::header("Header:");
    assert!(header.is_header);
}

#[test]
fn test_custom_help_text() {
    let mut help = HelpSystem::new();
    let original_count = help.total_lines;

    help.add_line(HelpTextLine::new("Custom line"));
    assert_eq!(help.total_lines, original_count + 1);

    help.clear();
    assert_eq!(help.total_lines, 0);

    help.reload_default();
    assert_eq!(help.total_lines, original_count);
}

#[test]
fn help_lines_follow_text_and_headers() {
    let help = HelpSystem::new();
    let text = help_text();
    assert_eq!(help.total_lines, text.len());
    assert_eq!(help.lines.len(), text.len());
    assert_eq!(help.lines[0].text, "控制说明:");
    assert!(help.lines[0].is_header);
    assert!(!help.lines[1].is_header);
    assert!(!help.lines[3].is_header);
    assert!(help.lines[2].is_header);
}

#[test]
fn scroll_stays_within_bounds() {
    let mut help = HelpSystem::new();
    let max = help.max_scroll_position();
    assert_eq!(max, help.total_lines - HELP_VISIBLE_LINES);
    help.scroll_to_bottom();
    assert_eq!(help.scroll_position, max);
    assert!(!help.can_scroll_down());
    help.scroll_down();
    assert_eq!(help.scroll_position, max);
    help.page_down();
    assert_eq!(help.scroll_position, max);
    assert_eq!(help.visible_lines().len(), HELP_VISIBLE_LINES);
    help.scroll_to_top();
    assert_eq!(help.scroll_position, 0);
    help.scroll_up();
    assert_eq!(help.scroll_position, 0);
    assert!(help.can_scroll_down());
}

#[test]
fn scroll_down_then_up_restores() {
    let mut help = HelpSystem::new();
    help.scroll_down();
    help.scroll_down();
    let at = help.scroll_position;
    help.scroll_down();
    help.scroll_up();
    assert_eq!(help.scroll_position, at);
}

#[test]
fn cleared_help_shows_nothing() {
    let mut help = HelpSystem::new();
    help.scroll_down();
    help.clear();
    assert_eq!(help.scroll_position, 0);
    assert_eq!(help.max_scroll_position(), 0);
    assert!(help.visible_lines().is_empty());
    help.init();
    assert_eq!(help.total_lines, 0);
    help.reload_default();
    assert_eq!(help.total_lines, help_text().len());
}

#[test]
fn global_help_functions() {
    let mut flag = true;
    let mut skip = 5usize;
    let mut system: Option<HelpSystem> = None;
    help_scroll_down(&mut skip, &mut system);
    assert_eq!(skip, 5);
    help_scroll_up(&mut skip, &mut system);
    assert_eq!(skip, 4);
    init_help(&mut flag, &mut skip, &mut system);
    assert!(!flag);
    assert_eq!(skip, 0);
    assert!(system.is_some());
    display_help(&mut flag, &mut skip, &mut system);
    assert!(flag);
    assert!(system.as_ref().unwrap().visible);
    help_scroll_down(&mut skip, &mut system);
    help_scroll_down(&mut skip, &mut system);
    assert_eq!(skip, 2);
    assert_eq!(system.as_ref().unwrap().scroll_position, 2);
    help_scroll_up(&mut skip, &mut system);
    assert_eq!(skip, 1);
    assert_eq!(system.as_ref().unwrap().scroll_position, 1);
    let max = system.as_ref().unwrap().max_scroll_position();
    for _ in 0..100 {
        help_scroll_down(&mut skip, &mut system);
    }
    assert_eq!(skip, max);
}
