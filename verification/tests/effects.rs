use devilutionx::effects::{EffectsManager, HeroClass, SfxFlag, SfxID, SoundEffect};

#[test]
fn test_sfx_flag_from_str() {
    assert_eq!(SfxFlag::from_str("Stream"), Some(SfxFlag::Stream));
    assert_eq!(SfxFlag::from_str("Misc"), Some(SfxFlag::Misc));
    assert_eq!(SfxFlag::from_str("Unknown"), None);
}

#[test]
fn test_sfx_id_conversion() {
    assert_eq!(SfxID::Walk.as_i16(), 0);
    assert_eq!(SfxID::from_i16(0), Some(SfxID::Walk));
    assert_eq!(SfxID::from_i16(-1), Some(SfxID::NoSound));
    assert_eq!(SfxID::from_i16(999), None);
}

#[test]
fn test_hero_class_sfx_mask() {
    assert_eq!(HeroClass::Warrior.get_sfx_mask(), SfxFlag::Warrior.bits());
    assert_eq!(HeroClass::Rogue.get_sfx_mask(), SfxFlag::Rogue.bits());
    assert_eq!(HeroClass::Sorcerer.get_sfx_mask(), SfxFlag::Sorcerer.bits());
    assert_eq!(HeroClass::Monk.get_sfx_mask(), SfxFlag::Monk.bits());
}

#[test]
fn test_sound_effect_new() {
    let effect = SoundEffect::new(0x03, "test.wav".to_string());
    assert_eq!(effect.flags, 0x03);
    assert_eq!(effect.path, "test.wav");
    assert!(!effect.loaded);
    assert!(!effect.playing);
}

#[test]
fn test_sound_effect_flags() {
    let stream = SoundEffect::new(SfxFlag::Stream.bits(), "s.wav".to_string());
    assert!(stream.is_stream());
    assert!(!stream.is_misc());

    let misc = SoundEffect::new(SfxFlag::Misc.bits(), "m.wav".to_string());
    assert!(!misc.is_stream());
    assert!(misc.is_misc());
}

#[test]
fn test_effects_manager_new() {
    let manager = EffectsManager::new();
    assert!(!manager.sound_initialized);
    assert!(manager.sound_enabled);
    assert!(manager.effects.is_empty());
}

#[test]
fn test_effects_manager_load_data() {
    let mut manager = EffectsManager::new();
    manager.load_effects_data(&[(0x02, "sound1.wav"), (0x04, "sound2.wav")]);
    assert_eq!(manager.effects.len(), 2);
}

#[test]
fn test_effects_manager_stop_stream() {
    let mut manager = EffectsManager::new();
    manager.load_effects_data(&[(SfxFlag::Stream.bits(), "stream.wav")]);
    manager.sound_initialized = true;
    manager.current_stream = Some(0);
    manager.effects[0].playing = true;

    manager.stop_stream();
    assert!(manager.current_stream.is_none());
    assert!(!manager.effects[0].playing);
}

#[test]
fn test_effects_manager_is_playing() {
    let mut manager = EffectsManager::new();
    manager.load_effects_data(&[(0x02, "test.wav")]);
    manager.sound_initialized = true;

    assert!(!manager.is_playing(SfxID::Walk));

    manager.effects[0].playing = true;
    assert!(manager.is_playing(SfxID::Walk));
}

#[test]
fn test_effects_manager_stop_all() {
    let mut manager = EffectsManager::new();
    manager.load_effects_data(&[(0x02, "sound1.wav"), (0x02, "sound2.wav")]);
    manager.sound_initialized = true;
    manager.effects[0].playing = true;
    manager.effects[1].playing = true;
    manager.current_stream = Some(0);

    manager.stop_all();
    assert!(!manager.effects[0].playing);
    assert!(!manager.effects[1].playing);
    assert!(manager.current_stream.is_none());
}

#[test]
fn test_effects_manager_cleanup() {
    let mut manager = EffectsManager::new();
    manager.load_effects_data(&[(0x02, "test.wav")]);
    manager.sound_initialized = true;
    manager.effects[0].loaded = true;
    manager.effects[0].playing = true;

    manager.cleanup();
    assert!(!manager.effects[0].loaded);
    assert!(!manager.effects[0].playing);
}

#[test]
fn flag_bits_and_names() {
    let all = [
        (SfxFlag::Stream, "Stream", 0x01u8),
        (SfxFlag::Misc, "Misc", 0x02),
        (SfxFlag::Ui, "Ui", 0x04),
        (SfxFlag::Monk, "Monk", 0x08),
        (SfxFlag::Rogue, "Rogue", 0x10),
        (SfxFlag::Warrior, "Warrior", 0x20),
        (SfxFlag::Sorcerer, "Sorcerer", 0x40),
    ];
    for (flag, name, bits) in all {
        assert_eq!(flag.bits(), bits);
        assert_eq!(SfxFlag::from_str(name), Some(flag));
    }
    assert_eq!(SfxFlag::from_str("stream"), None);
    assert_eq!(SfxFlag::from_str(""), None);
}

#[test]
fn sfx_numbers_round_trip() {
    for v in -2i16..400 {
        if let Some(id) = SfxID::from_i16(v) {
            assert_eq!(id.as_i16(), v);
        }
    }
    assert_eq!(SfxID::NoSound.as_i16(), -1);
    assert_eq!(SfxID::from_i16(-2), None);
}

#[test]
fn randomize_picks_neighbouring_lines() {
    assert_eq!(EffectsManager::randomize_sfx_with(SfxID::Walk, 0), SfxID::Walk);
    assert_eq!(EffectsManager::randomize_sfx_with(SfxID::Walk, 2), SfxID::Walk);
    assert_eq!(EffectsManager::randomize_sfx_with(SfxID::Swing, 0), SfxID::Swing);
    assert_eq!(EffectsManager::randomize_sfx_with(SfxID::Swing, 1), SfxID::Swing);
    assert_eq!(EffectsManager::randomize_sfx_with(SfxID::Warrior69, 1), SfxID::Sorceror69);
    assert_eq!(EffectsManager::randomize_sfx_with(SfxID::Warrior14, 2), SfxID::Warrior16);
    assert_eq!(EffectsManager::randomize_sfx_with(SfxID::Monk14, 1), SfxID::Monk14);
}

#[test]
fn class_masks_select_loaded_effects() {
    let mut manager = EffectsManager::new();
    manager.load_effects_data(&[
        (0x20, "warrior.wav"),
        (0x10, "rogue.wav"),
        (0x02, "misc.wav"),
        (0x01 | 0x20, "stream.wav"),
        (0x04, "ui.wav"),
        (0x00, "none.wav"),
    ]);
    manager.init_for_class(HeroClass::Warrior);
    assert!(manager.effects.iter().all(|e| !e.loaded));
    manager.sound_initialized = true;
    manager.init_for_class(HeroClass::Warrior);
    let loaded: Vec<bool> = manager.effects.iter().map(|e| e.loaded).collect();
    assert_eq!(loaded, vec![true, false, true, false, false, false]);
    manager.init_ui_sounds();
    assert!(manager.effects[4].loaded);
    assert_eq!(HeroClass::Warrior.get_sfx_mask(), 0x20);
}

#[test]
fn multiplayer_masks_load_all_classes() {
    let mut manager = EffectsManager::new();
    manager.load_effects_data(&[(0x20, "w"), (0x10, "r"), (0x40, "s"), (0x08, "m")]);
    manager.sound_initialized = true;
    manager.is_multiplayer = true;
    manager.is_spawn = true;
    manager.init_for_class(HeroClass::Rogue);
    let loaded: Vec<bool> = manager.effects.iter().map(|e| e.loaded).collect();
    assert_eq!(loaded, vec![true, false, false, true]);
    manager.is_spawn = false;
    manager.init_for_class(HeroClass::Rogue);
    assert!(manager.effects.iter().all(|e| e.loaded));
}

#[test]
fn play_effect_and_lengths() {
    let mut manager = EffectsManager::new();
    manager.load_effects_data(&[(0x02, "walk.wav")]);
    manager.play_effect(SfxID::Walk);
    assert!(!manager.effects[0].playing);
    manager.sound_initialized = true;
    manager.play_effect(SfxID::Walk);
    assert!(manager.effects[0].playing);
    assert!(manager.effects[0].start_time.is_some());
    assert!(manager.is_playing(SfxID::Walk));
    manager.effects[0].duration_ms = 250;
    assert_eq!(manager.get_sfx_length(SfxID::Walk), 250);
    assert_eq!(manager.get_sfx_length(SfxID::NoSound), 0);
    assert_eq!(manager.get_sfx_length(SfxID::Swing), 0);
}

#[test]
fn play_sfx_starts_stream_and_update_keeps_it() {
    let mut manager = EffectsManager::new();
    manager.load_effects_data(&[(SfxFlag::Stream.bits(), "walk.wav")]);
    manager.play_sfx(SfxID::Walk);
    assert!(!manager.effects[0].playing);
    manager.sound_initialized = true;
    manager.play_sfx(SfxID::Walk);
    assert!(manager.effects[0].playing);
    assert_eq!(manager.current_stream, Some(0));
    assert!(manager.is_playing(SfxID::Walk));
    manager.effects[0].duration_ms = 60_000;
    manager.update();
    assert_eq!(manager.current_stream, Some(0));
    manager.sound_enabled = false;
    manager.stop_stream();
    manager.play_sfx_at(SfxID::Walk, (3, 4), false);
    assert!(!manager.effects[0].playing);
}

#[test]
fn sound_effect_stops_when_finished() {
    let mut effect = SoundEffect::new(0x02, "x.wav".to_string());
    effect.playing = true;
    effect.duration_ms = 100;
    effect.stop_if_finished(Some(500));
    assert!(effect.playing);
    effect.start_time = Some(std::time::Instant::now());
    effect.stop_if_finished(None);
    assert!(effect.playing);
    effect.stop_if_finished(Some(99));
    assert!(effect.playing);
    effect.stop_if_finished(Some(100));
    assert!(!effect.playing);
    assert!(effect.start_time.is_none());
    let mut ui = SoundEffect::new(SfxFlag::Ui.bits(), "u.wav".to_string());
    assert!(ui.is_ui());
    ui.playing = true;
    ui.update_playing_state();
    assert!(ui.playing);
}
