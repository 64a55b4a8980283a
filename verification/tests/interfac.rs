use devilutionx::interfac::{
    complete_progress, inc_progress, interface_msg_pump, show_progress, Cutscene, DungeonType,
    EntryType, InterfaceManager, InterfaceMode, LoadContext, ProgressState, BAR_COLORS,
    BAR_POSITIONS, MAX_PROGRESS, PROGRESS_HEIGHT, PROGRESS_STEP_SIZE,
};

#[test]
fn test_interface_mode_values() {
    assert_eq!(InterfaceMode::DiabNextLevel as u8, 0);
    assert_eq!(InterfaceMode::DiabLoadGame as u8, 9);
    assert_eq!(InterfaceMode::Done as u8, 12);
}

#[test]
fn test_interface_mode_try_from() {
    assert_eq!(InterfaceMode::try_from(0), Ok(InterfaceMode::DiabNextLevel));
    assert_eq!(InterfaceMode::try_from(9), Ok(InterfaceMode::DiabLoadGame));
    assert_eq!(InterfaceMode::try_from(12), Ok(InterfaceMode::Done));
    assert!(InterfaceMode::try_from(13).is_err());
}

#[test]
fn test_interface_mode_is_level_transition() {
    assert!(InterfaceMode::DiabNextLevel.is_level_transition());
    assert!(InterfaceMode::DiabPrevLevel.is_level_transition());
    assert!(InterfaceMode::DiabTownWarp.is_level_transition());
    assert!(!InterfaceMode::DiabNewGame.is_level_transition());
    assert!(!InterfaceMode::Progress.is_level_transition());
}

#[test]
fn test_interface_mode_is_game_start() {
    assert!(InterfaceMode::DiabNewGame.is_game_start());
    assert!(InterfaceMode::DiabLoadGame.is_game_start());
    assert!(!InterfaceMode::DiabNextLevel.is_game_start());
}

#[test]
fn test_interface_mode_is_async_event() {
    assert!(InterfaceMode::Progress.is_async_event());
    assert!(InterfaceMode::Error.is_async_event());
    assert!(InterfaceMode::Done.is_async_event());
    assert!(!InterfaceMode::DiabNewGame.is_async_event());
}

#[test]
fn test_cutscene_paths() {
    assert_eq!(Cutscene::Start.cel_path(), "gendata\\cutstart");
    assert_eq!(Cutscene::Start.pal_path(), "gendata\\cutstart.pal");
    assert_eq!(Cutscene::Start.widescreen_clx_path(), "gendata\\cutstartw.clx");
}

#[test]
fn test_cutscene_progress_id() {
    assert_eq!(Cutscene::Level1.progress_id(), 0);
    assert_eq!(Cutscene::Level2.progress_id(), 2);
    assert_eq!(Cutscene::Start.progress_id(), 1);
    assert_eq!(Cutscene::Town.progress_id(), 1);
}

#[test]
fn test_dungeon_type_to_cutscene() {
    assert_eq!(DungeonType::Town.to_cutscene(), Cutscene::Town);
    assert_eq!(DungeonType::Cathedral.to_cutscene(), Cutscene::Level1);
    assert_eq!(DungeonType::Catacombs.to_cutscene(), Cutscene::Level2);
    assert_eq!(DungeonType::Caves.to_cutscene(), Cutscene::Level3);
    assert_eq!(DungeonType::Hell.to_cutscene(), Cutscene::Level4);
    assert_eq!(DungeonType::Crypt.to_cutscene(), Cutscene::Level5);
    assert_eq!(DungeonType::Nest.to_cutscene(), Cutscene::Level6);
}

#[test]
fn test_bar_colors() {
    assert_eq!(BAR_COLORS[0], 138);
    assert_eq!(BAR_COLORS[1], 43);
    assert_eq!(BAR_COLORS[2], 254);
}

#[test]
fn test_bar_positions() {
    assert_eq!(BAR_POSITIONS[0], [53, 37]);
    assert_eq!(BAR_POSITIONS[1], [53, 421]);
    assert_eq!(BAR_POSITIONS[2], [53, 37]);
}

#[test]
fn test_progress_state_default() {
    let state = ProgressState::default();
    assert!(state.load_started_at.is_none());
    assert!(state.skip_rendering);
    assert!(!state.done);
    assert_eq!(state.drawn_progress, 0);
}

#[test]
fn test_progress_state_reset() {
    let mut state = ProgressState::default();
    state.done = true;
    state.drawn_progress = 100;

    state.reset();

    assert!(state.load_started_at.is_some());
    assert!(state.skip_rendering);
    assert!(!state.done);
    assert_eq!(state.drawn_progress, 0);
}

#[test]
fn test_interface_manager_new() {
    let manager = InterfaceManager::new();
    assert_eq!(manager.progress(), 0);
    assert_eq!(manager.progress_id(), 1);
    assert!(!manager.is_progress());
}

#[test]
fn test_interface_manager_inc_progress() {
    let mut manager = InterfaceManager::new();
    manager.is_progress = true;

    assert!(manager.inc_progress(1));
    assert_eq!(manager.progress(), PROGRESS_STEP_SIZE);

    assert!(manager.inc_progress(2));
    assert_eq!(manager.progress(), PROGRESS_STEP_SIZE * 3);
}

#[test]
fn test_interface_manager_inc_progress_not_active() {
    let mut manager = InterfaceManager::new();

    assert!(!manager.inc_progress(1));
    assert_eq!(manager.progress(), 0);
}

#[test]
fn test_interface_manager_inc_progress_max() {
    let mut manager = InterfaceManager::new();
    manager.is_progress = true;

    manager.inc_progress(100);
    assert_eq!(manager.progress(), MAX_PROGRESS);
}

#[test]
fn test_interface_manager_complete_progress() {
    let mut manager = InterfaceManager::new();
    manager.is_progress = true;
    manager.progress = 100;

    manager.complete_progress();

    assert!(manager.progress() >= MAX_PROGRESS - PROGRESS_STEP_SIZE);
}

#[test]
fn test_interface_manager_start_progress() {
    let mut manager = InterfaceManager::new();

    manager.start_progress(InterfaceMode::DiabNewGame);

    assert!(manager.is_progress());
    assert_eq!(manager.progress(), 0);
    assert!(manager.state.load_started_at.is_some());
}

#[test]
fn test_interface_manager_end_progress() {
    let mut manager = InterfaceManager::new();
    manager.is_progress = true;

    manager.end_progress();

    assert!(!manager.is_progress());
    assert!(manager.state.done);
}

#[test]
fn test_interface_manager_get_level_type() {
    let mut manager = InterfaceManager::new();

    assert_eq!(manager.get_level_type(0), DungeonType::Town);
    assert_eq!(manager.get_level_type(1), DungeonType::Cathedral);
    assert_eq!(manager.get_level_type(4), DungeonType::Cathedral);
    assert_eq!(manager.get_level_type(5), DungeonType::Catacombs);
    assert_eq!(manager.get_level_type(8), DungeonType::Catacombs);
    assert_eq!(manager.get_level_type(9), DungeonType::Caves);
    assert_eq!(manager.get_level_type(12), DungeonType::Caves);
    assert_eq!(manager.get_level_type(13), DungeonType::Hell);
    assert_eq!(manager.get_level_type(16), DungeonType::Hell);

    manager.is_hellfire = true;
    assert_eq!(manager.get_level_type(17), DungeonType::Crypt);
    assert_eq!(manager.get_level_type(21), DungeonType::Nest);
}

#[test]
fn test_interface_manager_pick_cutscene() {
    let mut manager = InterfaceManager::new();

    assert_eq!(manager.pick_cutscene(InterfaceMode::DiabNewGame), Cutscene::Start);
    assert_eq!(manager.pick_cutscene(InterfaceMode::DiabLoadGame), Cutscene::Start);
    assert_eq!(manager.pick_cutscene(InterfaceMode::DiabReTown), Cutscene::Town);
    assert_eq!(manager.pick_cutscene(InterfaceMode::DiabWarpLevel), Cutscene::Portal);

    manager.current_level = 5;
    assert_eq!(manager.pick_cutscene(InterfaceMode::DiabNextLevel), Cutscene::Level2);

    manager.current_level = 1;
    assert_eq!(manager.pick_cutscene(InterfaceMode::DiabNextLevel), Cutscene::Town);

    manager.current_level = 16;
    assert_eq!(manager.pick_cutscene(InterfaceMode::DiabNextLevel), Cutscene::Gate);
}

#[test]
fn test_interface_manager_get_progress_bar_rect() {
    let mut manager = InterfaceManager::new();
    manager.progress = 100;
    manager.progress_id = 1;

    let rect = manager.get_progress_bar_rect(0, 0);

    assert_eq!(rect.x, 53);
    assert_eq!(rect.y, 421);
    assert_eq!(rect.width, 100);
    assert_eq!(rect.height, PROGRESS_HEIGHT);
    assert_eq!(rect.color_index, BAR_COLORS[1]);
}

#[test]
fn test_interface_manager_get_progress_bar_rect_with_offset() {
    let mut manager = InterfaceManager::new();
    manager.progress = 200;
    manager.progress_id = 0;

    let rect = manager.get_progress_bar_rect(100, 50);

    assert_eq!(rect.x, 53 + 100);
    assert_eq!(rect.y, 37 + 50);
}

#[test]
fn test_cutscene_info() {
    let manager = InterfaceManager::new();
    let info = manager.get_cutscene_info(InterfaceMode::DiabNewGame);

    assert_eq!(info.cutscene, Cutscene::Start);
    assert_eq!(info.cel_path, "gendata\\cutstart");
    assert_eq!(info.pal_path, "gendata\\cutstart.pal");
}

#[test]
fn test_entry_type() {
    assert_ne!(EntryType::Main, EntryType::Prev);
    assert_ne!(EntryType::SetLevel, EntryType::ReturnLevel);
}

#[test]
fn test_load_context_from_mode_new_game() {
    let manager = InterfaceManager::new();
    let ctx = LoadContext::from_mode(InterfaceMode::DiabNewGame, &manager);

    assert_eq!(ctx.mode, InterfaceMode::DiabNewGame);
    assert_eq!(ctx.entry_type, EntryType::Main);
    assert_eq!(ctx.target_level, 0);
    assert!(!ctx.is_set_level);
}

#[test]
fn test_load_context_from_mode_next_level() {
    let mut manager = InterfaceManager::new();
    manager.current_level = 5;

    let ctx = LoadContext::from_mode(InterfaceMode::DiabNextLevel, &manager);

    assert_eq!(ctx.entry_type, EntryType::Main);
    assert_eq!(ctx.target_level, 6);
}

#[test]
fn test_load_context_from_mode_prev_level() {
    let mut manager = InterfaceManager::new();
    manager.current_level = 5;

    let ctx = LoadContext::from_mode(InterfaceMode::DiabPrevLevel, &manager);

    assert_eq!(ctx.entry_type, EntryType::Prev);
    assert_eq!(ctx.target_level, 4);
}

#[test]
fn test_load_context_from_mode_set_level() {
    let mut manager = InterfaceManager::new();
    manager.set_level_num = 10;
    manager.set_level_type = Some(DungeonType::Catacombs);

    let ctx = LoadContext::from_mode(InterfaceMode::DiabSetLevel, &manager);

    assert_eq!(ctx.entry_type, EntryType::SetLevel);
    assert_eq!(ctx.target_level, 10);
    assert!(ctx.is_set_level);
    assert_eq!(ctx.target_level_type, DungeonType::Catacombs);
}

#[test]
fn interfac_test_constants() {
    assert_eq!(MAX_PROGRESS, 534);
    assert_eq!(PROGRESS_STEP_SIZE, 23);
    assert_eq!(PROGRESS_HEIGHT, 22);
}

#[test]
fn test_free_functions() {
    let mut manager = InterfaceManager::new();

    show_progress(&mut manager, InterfaceMode::DiabNewGame);
    assert!(manager.is_progress());

    assert!(inc_progress(&mut manager, 1));
    assert_eq!(manager.progress(), PROGRESS_STEP_SIZE);

    complete_progress(&mut manager);
    assert!(manager.progress() >= MAX_PROGRESS - PROGRESS_STEP_SIZE);
}

#[test]
fn try_from_round_trips_every_mode() {
    for v in 0u8..=255 {
        match InterfaceMode::try_from(v) {
            Ok(m) => assert_eq!(m as u8, v),
            Err(()) => assert!(v >= 13),
        }
    }
    assert_eq!(InterfaceMode::FIRST, InterfaceMode::DiabNextLevel);
    assert_eq!(InterfaceMode::LAST, InterfaceMode::Done);
}

#[test]
fn progress_never_exceeds_max() {
    let mut manager = InterfaceManager::new();
    manager.is_progress = true;
    for _ in 0..40 {
        manager.inc_progress(3);
        assert!(manager.progress() <= MAX_PROGRESS);
    }
    assert_eq!(manager.progress(), MAX_PROGRESS);
    assert!(!manager.inc_progress(1));
}

#[test]
fn skip_rendering_threshold() {
    let mut manager = InterfaceManager::new();
    manager.set_skip_threshold(1);
    assert!(manager.skip_rendering_after(None));
    assert!(manager.skip_rendering_after(Some(1_000_000)));
    assert!(!manager.skip_rendering_after(Some(1_000_001)));
    assert!(!manager.state.skip_rendering);
    assert!(!manager.skip_rendering_after(Some(0)));
    assert!(!manager.check_skip_rendering());
}

#[test]
fn check_skip_rendering_before_load_start() {
    let mut manager = InterfaceManager::new();
    assert!(manager.state.load_started_at.is_none());
    assert!(manager.check_skip_rendering());
    assert!(manager.state.elapsed().is_none());
    manager.state.reset();
    assert!(manager.state.elapsed().is_some());
}

#[test]
fn setters_and_set_level_context() {
    let mut manager = InterfaceManager::new();
    manager.set_multiplayer(true);
    manager.set_hellfire(true);
    manager.set_current_level(3);
    manager.set_set_level(2, DungeonType::Caves);
    assert!(manager.is_multiplayer);
    assert!(manager.is_hellfire);
    assert_eq!(manager.current_level, 3);
    assert_eq!(manager.set_level_num, 2);
    assert_eq!(manager.set_level_type, Some(DungeonType::Caves));
    let info = manager.get_cutscene_info(InterfaceMode::DiabSetLevel);
    assert_eq!(info.progress_id, info.cutscene.progress_id());
    interface_msg_pump();
}
