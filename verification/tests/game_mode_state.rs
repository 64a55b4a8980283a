use devilutionx::game_mode_state::{GameModeState, GameVersion, GlobalGameMode};

#[test]
fn test_default_state() {
    let state = GameModeState::new();
    assert!(!state.run_game);
    assert!(!state.is_spawn);
    assert!(!state.is_hellfire);
    assert!(!state.is_vanilla);
    assert!(!state.force_hellfire);
}

#[test]
fn test_diablo_mode() {
    let state = GameModeState::diablo();
    assert!(!state.is_spawn);
    assert!(!state.is_hellfire);
    assert!(state.is_full_game());
}

#[test]
fn test_hellfire_mode() {
    let state = GameModeState::hellfire();
    assert!(state.is_hellfire);
    assert!(state.has_hellfire_content());
}

#[test]
fn test_shareware_mode() {
    let state = GameModeState::shareware();
    assert!(state.is_spawn);
    assert!(!state.is_full_game());
}

#[test]
fn test_vanilla_mode() {
    let state = GameModeState::vanilla();
    assert!(state.is_vanilla);
    assert!(!state.has_qol_features());
}

#[test]
fn test_force_hellfire() {
    let mut state = GameModeState::new();
    state.force_hellfire = true;
    assert!(state.has_hellfire_content());
    assert!(!state.is_hellfire);
}

#[test]
fn test_setters() {
    let mut state = GameModeState::new();

    state.set_spawn(true);
    assert!(state.is_spawn);

    state.set_hellfire(true);
    assert!(state.is_hellfire);

    state.set_vanilla(true);
    assert!(state.is_vanilla);

    state.set_running(true);
    assert!(state.run_game);
}

#[test]
fn test_start_stop() {
    let mut state = GameModeState::new();

    state.start();
    assert!(state.run_game);

    state.stop();
    assert!(!state.run_game);
}

#[test]
fn test_global_game_mode() {
    let mut global = GlobalGameMode::new();

    assert!(!global.is_running());

    global.state_mut().start();
    assert!(global.is_running());

    global.state_mut().set_hellfire(true);
    assert!(global.is_hellfire());
}

#[test]
fn test_game_version() {
    assert_eq!(GameVersion::devilutionx().string, "1.5.3");
    assert_eq!(GameVersion::diablo_original().string, "1.09b");
    assert_eq!(GameVersion::hellfire().string, "1.01");
}

#[test]
fn test_qol_features() {
    let state = GameModeState::diablo();
    assert!(state.has_qol_features());

    let vanilla = GameModeState::vanilla();
    assert!(!vanilla.has_qol_features());
}

#[test]
fn shareware_is_not_hellfire_and_setters_clear() {
    let mut state = GameModeState::shareware();
    assert!(!state.has_hellfire_content());
    state.set_spawn(false);
    assert!(state.is_full_game());
    state.set_running(true);
    state.set_running(false);
    assert!(!state.run_game);
}

#[test]
fn global_game_mode_reads_through_state() {
    let mut global = GlobalGameMode::new();
    assert!(!global.is_spawn());
    assert!(!global.is_vanilla());
    global.state_mut().set_spawn(true);
    global.state_mut().set_vanilla(true);
    assert!(global.is_spawn());
    assert!(global.is_vanilla());
    assert!(global.state().is_spawn);
}

#[test]
fn game_version_numbers() {
    let v = GameVersion::devilutionx();
    assert_eq!((v.major, v.minor, v.patch), (1, 5, 3));
    let d = GameVersion::diablo_original();
    assert_eq!((d.major, d.minor, d.patch), (1, 0, 9));
    let h = GameVersion::hellfire();
    assert_eq!((h.major, h.minor, h.patch), (1, 0, 1));
}
