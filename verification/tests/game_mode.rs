use devilutionx::game_mode::{
    GameMode, GAME_ID_DIABLO, GAME_ID_DIABLO_SPAWN, GAME_ID_HELLFIRE, GAME_ID_HELLFIRE_SPAWN,
};

#[test]
fn test_game_id() {
    let diablo_full = GameMode { is_hellfire: false, is_spawn: false, ..Default::default() };
    assert_eq!(diablo_full.game_id(), u32::from_be_bytes(*b"DRTL"));

    let diablo_spawn = GameMode { is_hellfire: false, is_spawn: true, ..Default::default() };
    assert_eq!(diablo_spawn.game_id(), u32::from_be_bytes(*b"DSHR"));

    let hellfire_full = GameMode { is_hellfire: true, is_spawn: false, ..Default::default() };
    assert_eq!(hellfire_full.game_id(), u32::from_be_bytes(*b"HRTL"));

    let hellfire_spawn = GameMode { is_hellfire: true, is_spawn: true, ..Default::default() };
    assert_eq!(hellfire_spawn.game_id(), u32::from_be_bytes(*b"HSHR"));
}

#[test]
fn game_id_constants_spell_the_tags() {
    assert_eq!(GAME_ID_DIABLO, u32::from_be_bytes(*b"DRTL"));
    assert_eq!(GAME_ID_DIABLO_SPAWN, u32::from_be_bytes(*b"DSHR"));
    assert_eq!(GAME_ID_HELLFIRE, u32::from_be_bytes(*b"HRTL"));
    assert_eq!(GAME_ID_HELLFIRE_SPAWN, u32::from_be_bytes(*b"HSHR"));
}

#[test]
fn full_version_is_not_spawn() {
    let m = GameMode::default();
    assert!(!m.run_game && !m.is_spawn && !m.is_hellfire && !m.vanilla && !m.force_hellfire);
    assert!(m.is_full_version());
    let s = GameMode { is_spawn: true, ..Default::default() };
    assert!(!s.is_full_version());
    let v = GameMode { vanilla: true, force_hellfire: true, run_game: true, ..Default::default() };
    assert_eq!(v.game_id(), GAME_ID_DIABLO);
}
