use devilutionx::init::{
    are_extra_fonts_out_of_date, asset_contents_eq, cleanup, decoded_contents_eq, initialize,
    is_devilutionx_mpq_out_of_date, InitConfig, InitError, InitState, MpqType,
    DEVILUTIONX_MPQ_VERSION, EXTRA_FONTS_VERSION,
};

#[test]
fn test_init_state_new() {
    let state = InitState::new();
    assert!(!state.is_active);
    assert!(!state.mpq_loaded);
    assert!(!state.fonts_loaded);
    assert!(!state.hellfire_detected);
    assert!(!state.spawn_detected);
}

#[test]
fn test_init_state_set_active() {
    let mut state = InitState::new();
    state.set_active(true);
    assert!(state.is_active);

    state.set_active(false);
    assert!(!state.is_active);
}

#[test]
fn test_init_state_is_ready() {
    let mut state = InitState::new();
    assert!(!state.is_ready());

    state.mpq_loaded = true;
    assert!(!state.is_ready());

    state.is_active = true;
    assert!(state.is_ready());
}

#[test]
fn test_asset_contents_eq() {
    assert!(asset_contents_eq(b"1\n", "1\n"));
    assert!(!asset_contents_eq(b"2\n", "1\n"));
    assert!(!asset_contents_eq(b"", "1\n"));
}

#[test]
fn test_is_devilutionx_mpq_out_of_date() {
    assert!(is_devilutionx_mpq_out_of_date(None));

    assert!(!is_devilutionx_mpq_out_of_date(Some(b"1\n")));

    assert!(is_devilutionx_mpq_out_of_date(Some(b"0\n")));
    assert!(is_devilutionx_mpq_out_of_date(Some(b"2\n")));
}

#[test]
fn test_are_extra_fonts_out_of_date() {
    assert!(are_extra_fonts_out_of_date(None));
    assert!(!are_extra_fonts_out_of_date(Some(b"1\n")));
    assert!(are_extra_fonts_out_of_date(Some(b"0\n")));
}

#[test]
fn test_mpq_type_filename() {
    assert_eq!(MpqType::DevilutionX.filename(), "devilutionx.mpq");
    assert_eq!(MpqType::Diabdat.filename(), "diabdat.mpq");
    assert_eq!(MpqType::Spawn.filename(), "spawn.mpq");
    assert_eq!(MpqType::Hellfire.filename(), "hellfire.mpq");
}

#[test]
fn test_mpq_type_is_required() {
    assert!(MpqType::DevilutionX.is_required());
    assert!(MpqType::Diabdat.is_required());
    assert!(MpqType::Spawn.is_required());
    assert!(!MpqType::Hellfire.is_required());
    assert!(!MpqType::Fonts.is_required());
}

#[test]
fn test_init_config_default() {
    let config = InitConfig::default();
    assert_eq!(config.window_title, "DevilutionX");
    assert_eq!(config.window_width, 640);
    assert_eq!(config.window_height, 480);
    assert!(!config.fullscreen);
    assert!(config.vsync);
}

#[test]
fn test_init_error_display() {
    let err = InitError::MpqNotFound("test.mpq".to_string());
    assert!(err.message().contains("test.mpq"));

    let err = InitError::MpqOutOfDate;
    assert!(err.message().contains("out of date"));
}

#[test]
fn test_cleanup() {
    let mut state = InitState::new();
    state.is_active = true;
    state.mpq_loaded = true;
    state.fonts_loaded = true;

    cleanup(&mut state);

    assert!(!state.is_active);
    assert!(!state.mpq_loaded);
    assert!(!state.fonts_loaded);
}

#[test]
fn error_messages_are_exact() {
    assert_eq!(InitError::MpqNotFound("a.mpq".to_string()).message(), "MPQ file not found: a.mpq");
    assert_eq!(InitError::MpqOutOfDate.message(), "DevilutionX MPQ is out of date");
    assert_eq!(InitError::FontsNotFound.message(), "Extra fonts not found");
    assert_eq!(InitError::FontsOutOfDate.message(), "Extra fonts are out of date");
    assert_eq!(InitError::DataDirNotFound.message(), "Data directory not found");
    assert_eq!(InitError::WindowCreationFailed.message(), "Failed to create window");
    assert_eq!(
        InitError::SdlInitFailed("boom".to_string()).message(),
        "SDL initialization failed: boom"
    );
    assert_eq!(InitError::Unknown("?".to_string()).message(), "Unknown error: ?");
}

#[test]
fn contents_comparison_decodes_utf8() {
    assert!(decoded_contents_eq(Some("1\n"), "1\n"));
    assert!(!decoded_contents_eq(None, "1\n"));
    assert!(!asset_contents_eq(&[0xff, 0xfe], "1\n"));
    assert!(asset_contents_eq("é\n".as_bytes(), "é\n"));
    assert_eq!(DEVILUTIONX_MPQ_VERSION, "1\n");
    assert_eq!(EXTRA_FONTS_VERSION, "1\n");
}

#[test]
fn initialize_requires_data_dir() {
    let config = InitConfig::default();
    assert_eq!(initialize(&config, false, true, true).unwrap_err(), InitError::DataDirNotFound);
    let state = initialize(&config, true, true, false).unwrap();
    assert!(state.is_active && state.mpq_loaded && state.fonts_loaded);
    assert!(state.is_hellfire());
    assert!(!state.is_spawn());
    assert_eq!(state.data_path, Some(config.data_path.clone()));
    assert_eq!(state.save_path, Some(config.save_path.clone()));
    assert_eq!(state.config_path, Some(config.config_path.clone()));
    assert!(state.is_ready());
}

#[test]
fn mpq_fonts_filename() {
    assert_eq!(MpqType::Fonts.filename(), "fonts.mpq");
}
