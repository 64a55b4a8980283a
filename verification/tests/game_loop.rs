use devilutionx::game_loop::{
    automap_tile_solid, click_fits_check, frame_fits_check, char_panel_lines, convert_screen_to_tile, quest_log_lines, frame_begin, frame_continue, game_loop_iterations, handle_event,
    handle_shop_panel_click, point_in_rect, shop_panel_geometry, EventEffect, GameLoopState,
    LoopEvent, ScreenRect, ShopClick, LOGICAL_HEIGHT, LOGICAL_WIDTH, SHOP_NUM_OPTIONS, SHOP_PANEL_H,
    SHOP_PANEL_W,
};
use devilutionx::input::{
    KEY_B, KEY_C, KEY_ESCAPE, KEY_F, KEY_F5, KEY_Q, KEY_T, MOUSE_LEFT, MOUSE_RIGHT,
};
use devilutionx::game_loop::{
    build_town_layout, find_dungeon_up_stairs, mega_for_tile_id, next_level_threshold, LevelType,
};
use devilutionx::game_state::{DungeonLayout, GameState, STAIRS_COOLDOWN_TICKS, TOWN_DOWN_STAIRS, TOWN_MAX_X, TOWN_MAX_Y};
use devilutionx::game_loop::{apply_movement, check_stairs_transition, return_to_town, tick_move_target, StairsTransition};
use devilutionx::input::{InputSystem, KEY_A, KEY_D, KEY_S};
use devilutionx::player::{Player, PlayerItem};
use devilutionx::types::Point;
use devilutionx::levels::{MAXDUNX, MAXDUNY};
use devilutionx::tileset::{DunTemplate, TilEntry};
use devilutionx::game_loop::{is_movement_keycode, spell_selection_index};
use devilutionx::input::{KEY_KP1, KEY_KP9, KEY_NUM1, KEY_RIGHT, KEY_SPACE, KEY_W};
use devilutionx::game_loop::towner_marker_colour;

fn test_til() -> Vec<TilEntry> {
    vec![
        TilEntry { micro1: 5, micro2: 6, micro3: 7, micro4: 8 },
        TilEntry { micro1: 9, micro2: 10, micro3: 11, micro4: 12 },
    ]
}

fn til_with_stairs_mega(stairs_micro1: u16) -> Vec<TilEntry> {
    let mut tiles = vec![TilEntry { micro1: 1, micro2: 1, micro3: 1, micro4: 1 }; 13];
    tiles[12] = TilEntry { micro1: stairs_micro1, micro2: 2, micro3: 3, micro4: 4 };
    tiles
}

#[test]
fn test_level_type() {
    assert!(LevelType::Town.is_town());
    assert!(!LevelType::Cathedral.is_town());
    assert!(LevelType::Hell.is_dungeon());
}

#[test]
fn test_build_town_layout_default_fill_426() {
    let til = test_til();
    let layout = build_town_layout(&til, None, None, None, None);
    assert_eq!(layout.get(0, 0), 426);
    assert_eq!(layout.get(75, 68), 426);
    assert_eq!(layout.get(111, 111), 426);
}

#[test]
fn test_build_town_layout_sector_stamping() {
    let til = test_til();
    let sector = DunTemplate { width: 1, height: 1, tiles: vec![1] };
    let layout = build_town_layout(&til, None, None, None, Some(&sector));
    assert_eq!(layout.get(0, 0), 5, "top-left micro");
    assert_eq!(layout.get(1, 0), 6, "top-right micro");
    assert_eq!(layout.get(0, 1), 7, "bottom-left micro");
    assert_eq!(layout.get(1, 1), 8, "bottom-right micro");
    assert_eq!(layout.get(2, 0), 426);
}

#[test]
fn test_build_town_layout_multi_tile_sector() {
    let til = test_til();
    let sector = DunTemplate { width: 2, height: 1, tiles: vec![1, 2] };
    let layout = build_town_layout(&til, None, None, None, Some(&sector));
    assert_eq!(layout.get(0, 0), 5);
    assert_eq!(layout.get(1, 0), 6);
    assert_eq!(layout.get(2, 0), 9);
    assert_eq!(layout.get(3, 0), 10);
}

#[test]
fn test_mega_for_tile_id() {
    let til = test_til();
    assert_eq!(mega_for_tile_id(&til, 1), Some((5, 6, 7, 8)));
    assert_eq!(mega_for_tile_id(&til, 2), Some((9, 10, 11, 12)));
    assert_eq!(mega_for_tile_id(&til, 0), None);
    assert_eq!(mega_for_tile_id(&til, 999), None);
}

#[test]
fn test_find_dungeon_up_stairs_locates_entrance_mega() {
    let mut layout = DungeonLayout::default();
    let target_micro: u16 = 999;
    let (tx, ty) = (20usize, 30usize);
    layout.d_piece[ty * MAXDUNX + tx] = target_micro;
    assert_eq!(layout.width, MAXDUNX);
    assert_eq!(layout.height, MAXDUNY);
    let til = til_with_stairs_mega(target_micro);
    let found = find_dungeon_up_stairs(&layout, &til);
    assert_eq!(found, Some((tx as i32, ty as i32)));
}

#[test]
fn test_find_dungeon_up_stairs_returns_none_when_no_match() {
    let layout = DungeonLayout::default();
    let til = til_with_stairs_mega(999);
    assert!(find_dungeon_up_stairs(&layout, &til).is_none());
}

#[test]
fn test_find_dungeon_up_stairs_returns_none_when_til_too_short() {
    let layout = DungeonLayout::default();
    let til = test_til();
    assert!(find_dungeon_up_stairs(&layout, &til).is_none());
}

#[test]
fn up_stairs_first_match_row_by_row_and_zero_piece() {
    let mut layout = DungeonLayout::default();
    layout.d_piece[40 * MAXDUNX + 3] = 77;
    layout.d_piece[39 * MAXDUNX + 90] = 77;
    let til = til_with_stairs_mega(77);
    assert_eq!(find_dungeon_up_stairs(&layout, &til), Some((90, 39)));
    let zero = til_with_stairs_mega(0);
    assert_eq!(find_dungeon_up_stairs(&DungeonLayout::default(), &zero), None);
}

#[test]
fn sectors_overlap_in_order_and_missing_tiles_fall_back() {
    let mut til = vec![TilEntry { micro1: 1, micro2: 1, micro3: 1, micro4: 1 }; 220];
    til[0] = TilEntry { micro1: 5, micro2: 6, micro3: 7, micro4: 8 };
    til[217] = TilEntry { micro1: 30, micro2: 31, micro3: 32, micro4: 33 };
    let wide = DunTemplate { width: 25, height: 1, tiles: vec![1; 25] };
    let corner = DunTemplate { width: 1, height: 1, tiles: vec![0] };
    let layout = build_town_layout(&til, None, None, Some(&wide), Some(&corner));
    assert_eq!(layout.get(0, 0), 30, "id 0 falls back to tile 218");
    assert_eq!(layout.get(1, 1), 33);
    assert_eq!(layout.get(0, 46), 5, "sector 3 drawn from (0, 46)");
    assert_eq!(layout.get(49, 47), 8);
    assert_eq!(layout.get(50, 46), 426);
    let short = DunTemplate { width: 2, height: 1, tiles: vec![1] };
    let small_til = test_til();
    let layout2 = build_town_layout(&small_til, Some(&short), None, None, None);
    assert_eq!(layout2.get(46, 46), 5);
    assert_eq!(layout2.get(48, 46), 426, "no entry for tile 218 either: plain ground");
}

#[test]
fn experience_still_needed() {
    assert_eq!(next_level_threshold(1, 0), Some(2000));
    assert_eq!(next_level_threshold(0, 500), Some(1500));
    assert_eq!(next_level_threshold(2, 2500), Some(2120));
    assert_eq!(next_level_threshold(2, 5000), Some(0));
    assert_eq!(next_level_threshold(49, 0), Some(1310707109));
    assert_eq!(next_level_threshold(50, 0), None);
    assert_eq!(next_level_threshold(255, 0), None);
}

#[test]
fn movement_keys_and_spell_digits() {
    assert!(is_movement_keycode(KEY_W));
    assert!(is_movement_keycode(KEY_RIGHT));
    assert!(!is_movement_keycode(KEY_SPACE));
    assert_eq!(spell_selection_index(KEY_NUM1), Some(0));
    assert_eq!(spell_selection_index('9' as i32), Some(8));
    assert_eq!(spell_selection_index('0' as i32), None);
    assert_eq!(spell_selection_index(KEY_KP1), Some(0));
    assert_eq!(spell_selection_index(KEY_KP9), Some(8));
    assert_eq!(spell_selection_index(KEY_KP9 + 1), None);
}

#[test]
fn towner_colours() {
    assert_eq!(towner_marker_colour(0), (220, 140, 30));
    assert_eq!(towner_marker_colour(6), (140, 90, 220));
    assert_eq!(towner_marker_colour(9), (210, 210, 190));
    assert_eq!(towner_marker_colour(10), (140, 140, 140));
}

fn loop_player() -> Player {
    Player {
        position: Point::new(0, 0),
        _p_gold: 0,
        _p_hit_points: 640,
        _p_max_hp: 640,
        _p_hp_base: 640,
        _p_max_hp_base: 640,
        _p_mana: 0,
        _p_max_mana: 0,
        _p_mana_base: 0,
        _p_max_mana_base: 0,
        _p_level: 1,
        _p_experience: 0,
        _p_strength: 30,
        _p_base_str: 30,
        _p_magic: 10,
        _p_base_mag: 10,
        _p_dexterity: 20,
        _p_base_dex: 20,
        _p_vitality: 25,
        _p_base_vit: 25,
        _p_i_ac: 0,
        _p_i_min_dam: 0,
        _p_i_max_dam: 0,
        inv_body: vec![PlayerItem::empty(); 7],
    }
}

fn walking_gs() -> GameState {
    let mut gs = GameState::new(loop_player(), true, Vec::new());
    gs.camera.tile_x = 50;
    gs.camera.tile_y = 50;
    gs.player.position.x = 50;
    gs.player.position.y = 50;
    gs
}

#[test]
fn test_tick_move_target_clears_on_arrival() {
    let mut gs = walking_gs();
    let mut target = Some((50, 50));
    tick_move_target(&mut gs, (50, 50), &mut target);
    assert_eq!(target, None, "target should be cleared on arrival");
    assert_eq!(gs.camera.tile_x, 50);
    assert_eq!(gs.camera.tile_y, 50);
}

#[test]
fn test_tick_move_target_walks_one_tile_toward_destination() {
    let mut gs = walking_gs();
    let mut target = Some((53, 52));
    tick_move_target(&mut gs, (53, 52), &mut target);
    assert_eq!(gs.player.position.x, 51, "x advanced by 1");
    assert_eq!(gs.player.position.y, 51, "y advanced by 1");
    assert_eq!(gs.camera.tile_x, 51);
    assert_eq!(gs.camera.tile_y, 51);
    assert_eq!(target, Some((53, 52)));
}

#[test]
fn test_tick_move_target_clears_destination_on_final_step() {
    let mut gs = walking_gs();
    let mut target = Some((52, 50));
    tick_move_target(&mut gs, (52, 50), &mut target);
    assert_eq!(gs.player.position.x, 51);
    assert_eq!(target, Some((52, 50)));
    tick_move_target(&mut gs, (52, 50), &mut target);
    assert_eq!(gs.player.position.x, 52, "arrived at x");
    assert_eq!(gs.player.position.y, 50, "y unchanged");
    assert_eq!(target, None, "target cleared after final step");
}

#[test]
fn test_tick_move_target_walks_full_diagonal_path() {
    let mut gs = walking_gs();
    let dest = (53, 53);
    let mut target = Some(dest);
    for _ in 0..10 {
        tick_move_target(&mut gs, dest, &mut target);
        if target.is_none() {
            break;
        }
    }
    assert_eq!(target, None, "should have arrived within 10 ticks");
    assert_eq!(gs.player.position.x, 53);
    assert_eq!(gs.player.position.y, 53);
}

fn dungeon_gs_with_up_stair(stair_x: i32, stair_y: i32) -> GameState {
    let mut gs = GameState::new(loop_player(), false, Vec::new());
    gs.in_dungeon = true;
    gs.is_town = false;
    gs.dungeon_up_stairs = Some((stair_x, stair_y));
    gs.game_tick = STAIRS_COOLDOWN_TICKS + 10;
    gs.last_transition_tick = 0;
    gs
}

fn town_gs_for_stairs() -> GameState {
    let mut gs = GameState::new(loop_player(), true, Vec::new());
    gs.in_dungeon = false;
    gs.is_town = true;
    gs.game_tick = STAIRS_COOLDOWN_TICKS + 10;
    gs.last_transition_tick = 0;
    gs
}

#[test]
fn test_stair_detection_descends_when_on_town_down_stair() {
    let mut gs = town_gs_for_stairs();
    gs.player.position = Point::new(TOWN_DOWN_STAIRS.0, TOWN_DOWN_STAIRS.1);
    let tick_before = gs.game_tick;
    assert_eq!(check_stairs_transition(&mut gs), StairsTransition::Descend);
    assert_eq!(gs.last_transition_tick, tick_before, "cooldown should be stamped after a detection fires");
    assert!(!gs.in_dungeon, "the descent itself is left to the caller");
    assert!(!gs.stairs_cooldown_ready());
}

#[test]
fn test_stair_detection_descends_when_adjacent_to_town_down_stair() {
    let mut gs = town_gs_for_stairs();
    gs.player.position = Point::new(TOWN_DOWN_STAIRS.0 + 1, TOWN_DOWN_STAIRS.1 + 1);
    check_stairs_transition(&mut gs);
    assert_eq!(gs.last_transition_tick, gs.game_tick, "adjacency within radius should still fire detection");
}

#[test]
fn test_stair_detection_does_not_descend_when_far_from_stair() {
    let mut gs = town_gs_for_stairs();
    gs.player.position = Point::new(75, 68);
    let last_before = gs.last_transition_tick;
    assert_eq!(check_stairs_transition(&mut gs), StairsTransition::Stay);
    assert_eq!(gs.last_transition_tick, last_before, "cooldown must not change when no stair is nearby");
    assert!(!gs.in_dungeon, "must remain in town");
}

#[test]
fn test_stair_detection_blocked_by_cooldown_in_town() {
    let mut gs = town_gs_for_stairs();
    gs.last_transition_tick = gs.game_tick;
    assert!(!gs.stairs_cooldown_ready());
    gs.player.position = Point::new(TOWN_DOWN_STAIRS.0, TOWN_DOWN_STAIRS.1);
    let last_before = gs.last_transition_tick;
    check_stairs_transition(&mut gs);
    assert_eq!(gs.last_transition_tick, last_before, "cooldown must suppress re-detection");
    assert!(!gs.in_dungeon, "must remain in town during cooldown");
}

#[test]
fn test_stair_detection_ascends_when_on_dungeon_up_stair() {
    let mut gs = dungeon_gs_with_up_stair(40, 40);
    gs.player.position = Point::new(40, 40);
    assert_eq!(check_stairs_transition(&mut gs), StairsTransition::Ascended);
    assert!(!gs.in_dungeon, "should have returned to town");
    assert!(gs.is_town, "is_town flag set on return");
    assert!(gs.dungeon_layout.is_none(), "dungeon_layout cleared");
    assert!(gs.dungeon_up_stairs.is_none(), "dungeon_up_stairs cleared on return");
    assert!(gs.stairs_cooldown_ready() == false, "cooldown stamped after return");
}

#[test]
fn test_stair_detection_no_up_stair_does_nothing_in_dungeon() {
    let mut gs = dungeon_gs_with_up_stair(40, 40);
    gs.dungeon_up_stairs = None;
    gs.player.position = Point::new(40, 40);
    let last_before = gs.last_transition_tick;
    check_stairs_transition(&mut gs);
    assert!(gs.in_dungeon, "must remain in dungeon");
    assert_eq!(gs.last_transition_tick, last_before);
}

#[test]
fn test_apply_movement_no_keys_is_noop() {
    let mut gs = GameState::new(loop_player(), true, Vec::new());
    gs.init_town_camera();
    let input = InputSystem::new();
    let before = (gs.camera.tile_x, gs.camera.tile_y);
    apply_movement(&mut gs, &input);
    let after = (gs.camera.tile_x, gs.camera.tile_y);
    assert_eq!(before, after, "camera should not move with no input");
}

#[test]
fn test_apply_movement_clamps_to_bounds() {
    let mut gs = GameState::new(loop_player(), true, Vec::new());
    gs.camera.tile_x = 5;
    gs.camera.tile_y = 5;
    let mut input = InputSystem::new();
    input.begin_frame();
    input.on_key_down(KEY_W);
    input.on_key_down(KEY_A);
    for _ in 0..200 {
        apply_movement(&mut gs, &input);
    }
    assert!(gs.camera.tile_x >= 4, "x clamped: {}", gs.camera.tile_x);
    assert!(gs.camera.tile_y >= 4, "y clamped: {}", gs.camera.tile_y);
}

#[test]
fn test_apply_movement_clamps_to_max_bounds() {
    let mut gs = GameState::new(loop_player(), true, Vec::new());
    gs.camera.tile_x = TOWN_MAX_X as i32 - 6;
    gs.camera.tile_y = TOWN_MAX_Y as i32 - 6;
    let mut input = InputSystem::new();
    input.begin_frame();
    input.on_key_down(KEY_S);
    input.on_key_down(KEY_D);
    for _ in 0..200 {
        apply_movement(&mut gs, &input);
    }
    assert!(gs.camera.tile_x <= (TOWN_MAX_X as i32 - 5), "x max clamp: {}", gs.camera.tile_x);
    assert!(gs.camera.tile_y <= (TOWN_MAX_Y as i32 - 5), "y max clamp: {}", gs.camera.tile_y);
}

#[test]
fn test_apply_movement_updates_player_position() {
    let mut gs = GameState::new(loop_player(), true, Vec::new());
    gs.camera.tile_x = 50;
    gs.camera.tile_y = 50;
    let mut input = InputSystem::new();
    input.begin_frame();
    input.on_key_down(KEY_D);
    for _ in 0..200 {
        apply_movement(&mut gs, &input);
    }
    assert!(gs.camera.tile_x < 50 || gs.camera.tile_y > 50, "should have moved: x={}, y={}", gs.camera.tile_x, gs.camera.tile_y);
    assert_eq!(gs.camera.tile_x, gs.player.position.x);
    assert_eq!(gs.camera.tile_y, gs.player.position.y);
}

#[test]
fn movement_accumulates_sub_tiles() {
    let mut gs = GameState::new(loop_player(), true, Vec::new());
    gs.camera.tile_x = 50;
    gs.camera.tile_y = 50;
    let mut input = InputSystem::new();
    input.on_key_down(KEY_S);
    apply_movement(&mut gs, &input);
    assert_eq!((gs.camera.sub_x, gs.camera.sub_y), (22, 22));
    assert_eq!((gs.player.position.x, gs.player.position.y), (0, 0), "no whole tile yet");
    for _ in 0..11 {
        apply_movement(&mut gs, &input);
    }
    assert_eq!((gs.camera.tile_x, gs.camera.tile_y), (51, 51));
    assert_eq!((gs.camera.sub_x, gs.camera.sub_y), (8, 8));
    assert_eq!((gs.player.position.x, gs.player.position.y), (51, 51));
}

#[test]
fn return_to_town_resets_level() {
    let mut gs = dungeon_gs_with_up_stair(3, 3);
    gs.dungeon_layout = Some(DungeonLayout::default());
    return_to_town(&mut gs);
    assert!(gs.is_town && !gs.in_dungeon);
    assert!(gs.dungeon_layout.is_none() && gs.dungeon_up_stairs.is_none());
    assert_eq!(gs.last_transition_tick, gs.game_tick);
    assert_eq!((gs.camera.tile_x, gs.camera.tile_y), (75, 68));
    assert_eq!((gs.player.position.x, gs.player.position.y), (75, 68));
}

/// The canvas point of the camera tile (75, 68) in the 640x480 view.
const CAMERA_ANCHOR: (i32, i32) = (288, 183);

fn project_tile_to_screen(u: i32, v: i32) -> (i32, i32) {
    (CAMERA_ANCHOR.0 + (u - v) * 32, CAMERA_ANCHOR.1 + (u + v) * 16)
}

#[test]
fn test_convert_screen_to_tile_at_anchor_is_camera() {
    let cam_x = 75;
    let cam_y = 68;
    let (ax, ay) = CAMERA_ANCHOR;
    let (wx, wy) = convert_screen_to_tile(ax, ay, CAMERA_ANCHOR, cam_x, cam_y);
    assert_eq!((wx, wy), (cam_x, cam_y));
}

#[test]
fn test_convert_screen_to_tile_round_trips_forward_projection() {
    let cam_x = 75;
    let cam_y = 68;
    for u in -9..=9 {
        for v in -9..=9 {
            let (mx, my) = project_tile_to_screen(u, v);
            let (wx, wy) = convert_screen_to_tile(mx, my, CAMERA_ANCHOR, cam_x, cam_y);
            assert_eq!(
                (wx, wy),
                (cam_x + u, cam_y + v),
                "round-trip failed for offset ({},{}): screen=({},{})",
                u, v, mx, my
            );
        }
    }
}

#[test]
fn test_convert_screen_to_tile_concrete_example() {
    let (wx, wy) = convert_screen_to_tile(384, 295, CAMERA_ANCHOR, 75, 68);
    assert_eq!((wx, wy), (80, 70));
}

#[test]
fn convert_screen_to_tile_rounds_toward_zero() {
    // 20 pixels left and 10 up of the anchor: both quotients round to 0.
    assert_eq!(convert_screen_to_tile(268, 173, CAMERA_ANCHOR, 75, 68), (75, 68));
    // 40 left: u - v = -1, u + v = 0, so u and v round to 0.
    assert_eq!(convert_screen_to_tile(248, 183, CAMERA_ANCHOR, 75, 68), (75, 68));
    // 64 left: u - v = -2, u + v = 0.
    assert_eq!(convert_screen_to_tile(224, 183, CAMERA_ANCHOR, 75, 68), (74, 69));
}

#[test]
fn test_point_in_rect_basic() {
    let r = ScreenRect { x: 10, y: 20, w: 30, h: 40 };
    assert!(point_in_rect(10, 20, r), "top-left corner (inclusive lower bound)");
    assert!(point_in_rect(39, 59, r), "last interior pixel (just inside upper bound)");
    assert!(point_in_rect(25, 40, r), "interior point");
    assert!(!point_in_rect(9, 40, r), "just left of rect");
    assert!(!point_in_rect(40, 40, r), "right edge is exclusive");
    assert!(!point_in_rect(25, 19, r), "just above rect");
    assert!(!point_in_rect(25, 60, r), "bottom edge is exclusive");
}

fn gs_with_shop_open(kind: u8, gold: i32) -> GameState {
    let mut gs = GameState::new(loop_player(), true, Vec::new());
    gs.player._p_gold = gold;
    gs.open_shop(kind);
    gs
}

#[test]
fn test_shop_panel_geometry_is_centered() {
    let gs = gs_with_shop_open(0, 1000);
    let (panel, _opts, _items) = shop_panel_geometry(&gs);
    let expected_x = (LOGICAL_WIDTH - SHOP_PANEL_W) / 2;
    let expected_y = (LOGICAL_HEIGHT - SHOP_PANEL_H) / 2;
    assert_eq!(panel.x, expected_x);
    assert_eq!(panel.y, expected_y);
    assert_eq!(panel.w, SHOP_PANEL_W as u32);
    assert_eq!(panel.h, SHOP_PANEL_H as u32);
}

#[test]
fn test_shop_panel_geometry_has_four_option_buttons() {
    let gs = gs_with_shop_open(0, 1000);
    let (_panel, opts, _items) = shop_panel_geometry(&gs);
    assert_eq!(opts.len(), SHOP_NUM_OPTIONS as usize);
    let w0 = opts[0].w;
    assert!(opts.iter().all(|r| r.w == w0), "option buttons equal width");
}

#[test]
fn test_shop_panel_geometry_item_rows_match_inventory_size() {
    for kind in [0u8, 1, 6, 8] {
        let gs = gs_with_shop_open(kind, 10_000);
        let (_panel, _opts, items) = shop_panel_geometry(&gs);
        let expected = gs.active_shop_inventory().len();
        assert_eq!(items.len(), expected, "kind {} row count", kind);
        assert!(expected >= 1, "kind {} has at least one item", kind);
    }
}

#[test]
fn shop_panel_geometry_exact_layout() {
    let gs = gs_with_shop_open(1, 0);
    let (panel, opts, items) = shop_panel_geometry(&gs);
    assert_eq!(panel, ScreenRect { x: 110, y: 70, w: 420, h: 340 });
    assert_eq!(opts[0], ScreenRect { x: 118, y: 126, w: 96, h: 22 });
    assert_eq!(opts[3], ScreenRect { x: 424, y: 126, w: 96, h: 22 });
    assert_eq!(items.len(), 3);
    assert_eq!(items[2], ScreenRect { x: 122, y: 218, w: 396, h: 24 });
}

#[test]
fn test_close_button_click_closes_shop() {
    let mut gs = gs_with_shop_open(0, 1000);
    let (_panel, opts, _items) = shop_panel_geometry(&gs);
    let close = opts[3];
    let cx = close.x + close.w as i32 / 2;
    let cy = close.y + close.h as i32 / 2;
    handle_shop_panel_click(&mut gs, cx, cy);
    assert!(!gs.shop_open, "CLOSE should close the shop");
    assert!(gs.active_shop_npc.is_none());
}

#[test]
fn test_item_row_click_buys_item() {
    let price;
    {
        let gs = gs_with_shop_open(0, 10_000);
        price = gs.active_shop_inventory()[0].1;
    }
    let mut gs = gs_with_shop_open(0, 10_000);
    let (_panel, _opts, items) = shop_panel_geometry(&gs);
    let row = items[0];
    let rx = row.x + 5;
    let ry = row.y + row.h as i32 / 2;
    let gold_before = gs.player._p_gold;
    handle_shop_panel_click(&mut gs, rx, ry);
    assert_eq!(gs.player._p_gold, gold_before - price, "gold deducted by item price");
    assert!(gs.shop_open, "shop stays open after a buy");
}

#[test]
fn test_item_row_click_no_gold_leaves_gold_unchanged() {
    let mut gs = gs_with_shop_open(0, 0);
    let (_panel, _opts, items) = shop_panel_geometry(&gs);
    let row = items[0];
    let rx = row.x + 5;
    let ry = row.y + row.h as i32 / 2;
    handle_shop_panel_click(&mut gs, rx, ry);
    assert_eq!(gs.player._p_gold, 0, "no gold deducted on failed buy");
    assert!(gs.shop_open, "shop stays open on failed buy");
}

#[test]
fn test_click_outside_buttons_and_rows_is_ignored() {
    let mut gs = gs_with_shop_open(0, 1000);
    let (panel, _opts, _items) = shop_panel_geometry(&gs);
    let header_x = panel.x + SHOP_PANEL_W / 2;
    let header_y = panel.y + 20;
    let gold_before = gs.player._p_gold;
    handle_shop_panel_click(&mut gs, header_x, header_y);
    assert!(gs.shop_open, "stray click keeps shop open");
    assert_eq!(gs.player._p_gold, gold_before, "stray click changes nothing");
}

#[test]
fn test_each_shopkeeper_offers_three_to_five_items() {
    for kind in [0u8, 1, 6] {
        let gs = gs_with_shop_open(kind, 10_000);
        let n = gs.active_shop_inventory().len();
        assert!((3..=5).contains(&n), "kind {} should offer 3-5 items, got {}", kind, n);
    }
    let wirt = gs_with_shop_open(8, 10_000);
    assert_eq!(wirt.active_shop_inventory().len(), 1, "Wirt offers exactly one premium item");
}

#[test]
fn shop_click_outcomes_are_reported() {
    let mut gs = gs_with_shop_open(6, 150);
    assert_eq!(handle_shop_panel_click(&mut gs, 230, 130), ShopClick::OptionButton(1));
    assert_eq!(handle_shop_panel_click(&mut gs, 217, 130), ShopClick::Missed);
    // Third row of the witch: the staff, 400 gold, too dear.
    assert_eq!(handle_shop_panel_click(&mut gs, 300, 220), ShopClick::Purchase(2, Err("not enough gold")));
    assert_eq!(gs.player._p_gold, 150);
    assert_eq!(
        handle_shop_panel_click(&mut gs, 130, 193),
        ShopClick::Purchase(0, Ok(("Scroll of Firebolt", 100)))
    );
    assert_eq!(gs.player._p_gold, 50);
    // Below the last of the four rows.
    assert_eq!(handle_shop_panel_click(&mut gs, 300, 266), ShopClick::Missed);
    assert_eq!(handle_shop_panel_click(&mut gs, 500, 140), ShopClick::Closed);
    assert!(!gs.shop_open);
}

fn town_with_dwellers() -> GameState {
    let towners = vec![(80, 70, "Griswold the Blacksmith", 0u8), (70, 70, "Ogden the Tavern Owner", 3u8)];
    let mut gs = GameState::new(loop_player(), true, towners);
    gs.camera.tile_x = 75;
    gs.camera.tile_y = 68;
    gs
}

#[test]
fn handle_event_quit_and_escape() {
    let mut state = GameLoopState::new();
    let mut input = InputSystem::new();
    let mut gs = town_with_dwellers();
    gs.open_shop(0);
    let r = handle_event(LoopEvent::KeyDown(KEY_ESCAPE), &mut state, &mut input, &mut gs, CAMERA_ANCHOR);
    assert_eq!(r, (true, EventEffect::Nothing));
    assert!(!gs.shop_open, "Escape closes the shop first");
    assert!(state.running);
    let r = handle_event(LoopEvent::KeyDown(KEY_ESCAPE), &mut state, &mut input, &mut gs, CAMERA_ANCHOR);
    assert_eq!(r, (false, EventEffect::Nothing));
    assert!(!state.running);
    assert!(state.result, "Escape leaves the loop without quitting");
    let mut state2 = GameLoopState::new();
    let r = handle_event(LoopEvent::Quit, &mut state2, &mut input, &mut gs, CAMERA_ANCHOR);
    assert_eq!(r, (false, EventEffect::Nothing));
    assert!(!state2.running);
    assert!(!state2.result);
}

#[test]
fn handle_event_keys_toggle_panels_and_pick_spells() {
    let mut state = GameLoopState::new();
    let mut input = InputSystem::new();
    let mut gs = town_with_dwellers();
    state.move_target = Some((80, 80));
    handle_event(LoopEvent::KeyDown(KEY_W), &mut state, &mut input, &mut gs, CAMERA_ANCHOR);
    assert_eq!(state.move_target, None, "a movement key cancels click-to-move");
    assert!(input.is_key_down(KEY_W));
    handle_event(LoopEvent::KeyDown(KEY_C), &mut state, &mut input, &mut gs, CAMERA_ANCHOR);
    handle_event(LoopEvent::KeyDown(KEY_Q), &mut state, &mut input, &mut gs, CAMERA_ANCHOR);
    handle_event(LoopEvent::KeyDown(KEY_A), &mut state, &mut input, &mut gs, CAMERA_ANCHOR);
    assert!(state.char_panel_open && state.quest_panel_open && state.automap_open);
    let r = handle_event(LoopEvent::KeyDown(KEY_NUM1 + 2), &mut state, &mut input, &mut gs, CAMERA_ANCHOR);
    assert_eq!(r, (true, EventEffect::Nothing), "digits pick nothing while the book is shut");
    handle_event(LoopEvent::KeyDown(KEY_B), &mut state, &mut input, &mut gs, CAMERA_ANCHOR);
    assert!(state.spellbook_open);
    let r = handle_event(LoopEvent::KeyDown(KEY_NUM1 + 2), &mut state, &mut input, &mut gs, CAMERA_ANCHOR);
    assert_eq!(r, (true, EventEffect::SpellSlot(2)));
    handle_event(LoopEvent::KeyUp(KEY_W), &mut state, &mut input, &mut gs, CAMERA_ANCHOR);
    assert!(!input.is_key_down(KEY_W));
    handle_event(LoopEvent::KeyDown(KEY_C), &mut state, &mut input, &mut gs, CAMERA_ANCHOR);
    assert!(!state.char_panel_open, "pressing C again closes the panel");
}

#[test]
fn handle_event_mouse_clicks() {
    let mut state = GameLoopState::new();
    let mut input = InputSystem::new();
    let mut gs = town_with_dwellers();
    let r = handle_event(LoopEvent::MouseMotion(10, 20), &mut state, &mut input, &mut gs, CAMERA_ANCHOR);
    assert_eq!(r, (true, EventEffect::Nothing));
    assert_eq!(state.mouse_pos, (10, 20));
    let r = handle_event(LoopEvent::MouseButtonDown(11, 21), &mut state, &mut input, &mut gs, CAMERA_ANCHOR);
    assert_eq!(r, (true, EventEffect::ClickSound));
    assert_eq!(state.mouse_pos, (11, 21));
    // The ground at (76, 68): one tile along u.
    let (gx, gy) = project_tile_to_screen(1, 0);
    let r = handle_event(LoopEvent::MouseButtonUp(MOUSE_RIGHT, gx, gy), &mut state, &mut input, &mut gs, CAMERA_ANCHOR);
    assert_eq!(r, (true, EventEffect::Nothing));
    assert_eq!(state.move_target, None, "only the left button walks");
    let r = handle_event(LoopEvent::MouseButtonUp(MOUSE_LEFT, gx, gy), &mut state, &mut input, &mut gs, CAMERA_ANCHOR);
    assert_eq!(r, (true, EventEffect::Nothing));
    assert_eq!(state.move_target, Some((76, 68)));
    // Next to the tavern owner, who keeps no shop: walk there.
    let (ox, oy) = project_tile_to_screen(-4, 1);
    handle_event(LoopEvent::MouseButtonUp(MOUSE_LEFT, ox, oy), &mut state, &mut input, &mut gs, CAMERA_ANCHOR);
    assert_eq!(state.move_target, Some((71, 69)));
    assert!(!gs.shop_open);
    // Next to the smith: his shop opens and the walk stops.
    let (sx, sy) = project_tile_to_screen(4, 1);
    let r = handle_event(LoopEvent::MouseButtonUp(MOUSE_LEFT, sx, sy), &mut state, &mut input, &mut gs, CAMERA_ANCHOR);
    assert_eq!(r, (true, EventEffect::OpenedShop((80, 70, "Griswold the Blacksmith", 0))));
    assert!(gs.shop_open);
    assert_eq!(gs.active_shop_npc, Some(0));
    assert_eq!(state.move_target, None);
    // With the shop open, a left click goes to the panel.
    let r = handle_event(LoopEvent::MouseButtonUp(MOUSE_LEFT, 500, 140), &mut state, &mut input, &mut gs, CAMERA_ANCHOR);
    assert_eq!(r, (true, EventEffect::Shop(ShopClick::Closed)));
    assert!(!gs.shop_open);
    let r = handle_event(LoopEvent::Other, &mut state, &mut input, &mut gs, CAMERA_ANCHOR);
    assert_eq!(r, (true, EventEffect::Nothing));
}

#[test]
fn game_loop_iterations_at_startup_and_after() {
    assert_eq!(game_loop_iterations(true), 60);
    assert_eq!(game_loop_iterations(false), 3);
}

#[test]
fn frame_begin_revives_and_asks_to_descend() {
    let mut gs = town_with_dwellers();
    gs.player_dead = true;
    gs.player._p_hit_points = 0;
    gs.player._p_gold = 41;
    let mut input = InputSystem::new();
    input.on_key_down(KEY_D);
    assert_eq!(frame_begin(&mut gs, &input), (true, false), "the dead cannot descend");
    assert!(gs.player_dead, "D does not revive");
    input.on_key_down(KEY_SPACE);
    assert_eq!(frame_begin(&mut gs, &input), (true, false));
    assert!(!gs.player_dead);
    assert_eq!(gs.player._p_hit_points, 640);
    assert_eq!(gs.player._p_gold, 20);
    assert_eq!(frame_begin(&mut gs, &input), (false, true), "alive in town, D asks to descend");
    gs.in_dungeon = true;
    assert_eq!(frame_begin(&mut gs, &input), (false, false));
}

#[test]
fn frame_continue_moves_and_ticks_logic() {
    let mut gs = town_with_dwellers();
    gs.player.position = Point::new(50, 50);
    gs.camera.tile_x = 50;
    gs.camera.tile_y = 50;
    gs.game_tick = 100;
    let mut state = GameLoopState::new();
    state.move_target = Some((52, 50));
    let mut input = InputSystem::new();
    input.on_key_down(KEY_F5);
    let req = frame_continue(&mut state, &input, &mut gs, false, false);
    assert!(req.save && !req.load && !req.cast_firebolt);
    assert_eq!(req.logic_iterations, 0);
    assert_eq!(gs.player.position, Point::new(50, 50), "no walking between logic ticks");
    assert!(state.startup);
    let req = frame_continue(&mut state, &input, &mut gs, false, true);
    assert_eq!(req.logic_iterations, 60);
    assert_eq!(req.stairs, StairsTransition::Stay);
    assert_eq!(gs.player.position, Point::new(51, 50));
    assert!(!state.startup);
    let req = frame_continue(&mut state, &input, &mut gs, false, true);
    assert_eq!(req.logic_iterations, 3);
    assert_eq!(gs.player.position, Point::new(52, 50));
    assert_eq!(state.move_target, None);
}

#[test]
fn frame_continue_returns_to_town_and_casts_in_dungeon() {
    let mut gs = town_with_dwellers();
    gs.in_dungeon = true;
    gs.is_town = false;
    gs.player.position = Point::new(30, 30);
    gs.camera.tile_x = 30;
    gs.camera.tile_y = 30;
    let mut state = GameLoopState::new();
    let mut input = InputSystem::new();
    input.on_key_down(KEY_F);
    let req = frame_continue(&mut state, &input, &mut gs, false, false);
    assert!(req.cast_firebolt);
    let req = frame_continue(&mut state, &input, &mut gs, true, false);
    assert!(!req.cast_firebolt, "no casting in the frame the hero was dead");
    input.on_key_down(KEY_T);
    let req = frame_continue(&mut state, &input, &mut gs, false, false);
    assert!(!gs.in_dungeon);
    assert_eq!(gs.player.position, Point::new(75, 68));
    assert!(!req.cast_firebolt, "back in town, F casts nothing");
}

#[test]
fn frame_continue_descends_at_the_town_stairs() {
    let mut gs = town_with_dwellers();
    gs.player.position = Point::new(TOWN_DOWN_STAIRS.0, TOWN_DOWN_STAIRS.1);
    gs.camera.tile_x = TOWN_DOWN_STAIRS.0;
    gs.camera.tile_y = TOWN_DOWN_STAIRS.1;
    gs.game_tick = 50;
    let mut state = GameLoopState::new();
    let input = InputSystem::new();
    let req = frame_continue(&mut state, &input, &mut gs, false, true);
    assert_eq!(req.stairs, StairsTransition::Descend);
    assert_eq!(gs.last_transition_tick, 50);
}

#[test]
fn char_panel_lines_show_whole_points_and_bonuses() {
    let mut p = loop_player();
    p._p_strength = 45;
    p._p_base_str = 30;
    p._p_magic = 8;
    p._p_hit_points = 64 * 12 + 63;
    p._p_max_hp = 64 * 40;
    p._p_mana = -5;
    p._p_max_mana = 64 * 3;
    p._p_i_ac = 7;
    p._p_i_min_dam = 1;
    p._p_i_max_dam = 6;
    p._p_experience = 1000;
    p._p_level = 2;
    p._p_gold = 77;
    let c = char_panel_lines(&p);
    assert_eq!(c.level, 2);
    assert_eq!(c.strength, (45, 15));
    assert_eq!(c.magic, (8, -2));
    assert_eq!(c.dexterity, (20, 0));
    assert_eq!(c.vitality, (25, 0));
    assert_eq!(c.life, (12, 40));
    assert_eq!(c.mana, (0, 3), "negative mana shows as 0");
    assert_eq!(c.armor, 7);
    assert_eq!(c.damage, (1, 6));
    assert_eq!(c.experience, 1000);
    assert_eq!(c.next_level, next_level_threshold(2, 1000));
    assert_eq!(c.gold, 77);
    p._p_level = 50;
    assert_eq!(char_panel_lines(&p).next_level, None);
}

#[test]
fn quest_log_marks_quests_done_by_level() {
    let rows = quest_log_lines(10);
    assert_eq!(rows.len(), 12);
    assert_eq!(rows[0], ("THE BUTCHER", true));
    assert_eq!(rows[3], ("MAGIC ROCK", true));
    assert_eq!(rows[5], ("HALLS OF THE BLIND", true));
    assert_eq!(rows[6], ("Zhar THE MAD", false));
    assert_eq!(rows[11], ("ARCHBISHOP LAZARUS", false));
    assert!(quest_log_lines(1).iter().all(|r| !r.1));
    assert!(quest_log_lines(16).iter().all(|r| r.1));
}

#[test]
fn automap_walls_and_floors() {
    let mut gs = GameState::new(loop_player(), true, Vec::new());
    assert!(!automap_tile_solid(&gs, 5, 5), "no grid, nothing solid");
    let til = test_til();
    let sector = DunTemplate { width: 1, height: 1, tiles: vec![1] };
    gs.town_layout = Some(build_town_layout(&til, None, None, None, Some(&sector)));
    assert!(automap_tile_solid(&gs, 0, 0));
    assert!(!automap_tile_solid(&gs, -1, 0), "off the grid");
    let mut layout = DungeonLayout::default();
    layout.d_piece[3 * MAXDUNX + 4] = 7;
    layout.d_piece[3 * MAXDUNX + 5] = 7;
    layout.floor_tiles.push((5, 3));
    gs.dungeon_layout = Some(layout);
    gs.in_dungeon = true;
    assert!(automap_tile_solid(&gs, 4, 3));
    assert!(!automap_tile_solid(&gs, 5, 3), "a listed floor tile is walkable");
    assert!(!automap_tile_solid(&gs, 6, 3), "an empty piece is walkable");
}

#[test]
fn convert_screen_to_tile_far_from_the_canvas() {
    // Far beyond any canvas, the arithmetic still holds exactly.
    assert_eq!(convert_screen_to_tile(2_000_000_000, 0, (0, 0), 0, 0), (31_250_000, -31_250_000));
    assert_eq!(convert_screen_to_tile(-2_000_000_000, -2_000_000_000, (0, 0), 10, 10), (-93_749_990, -31_249_990));
}

#[test]
fn click_and_frame_checks_spot_overflow() {
    let gs = town_with_dwellers();
    assert!(click_fits_check(320, 200, CAMERA_ANCHOR, &gs));
    assert!(!click_fits_check(i32::MIN, 0, (1, 0), &gs), "x - anchor overflows");
    let mut far = town_with_dwellers();
    far.towners.push((i32::MIN + 5, 0, "Far", 9));
    assert!(!click_fits_check(288, 183, CAMERA_ANCHOR, &far), "a dweller too far to measure");
    let state = GameLoopState::new();
    let mut input = InputSystem::new();
    assert!(frame_fits_check(&state, &input, &gs, false, true));
    let mut edge = town_with_dwellers();
    edge.camera.sub_x = i32::MAX - 10;
    input.on_key_down(KEY_S);
    assert!(!frame_fits_check(&state, &input, &edge, false, false), "the sub-tile accumulator overflows");
    assert!(frame_fits_check(&state, &input, &edge, true, false), "the dead do not move");
    let mut stairs = town_with_dwellers();
    stairs.in_dungeon = true;
    stairs.dungeon_up_stairs = Some((i32::MIN, 0));
    stairs.game_tick = 100;
    let idle = InputSystem::new();
    assert!(frame_fits_check(&state, &idle, &stairs, false, false), "no stairs check between ticks");
    assert!(!frame_fits_check(&state, &idle, &stairs, false, true), "the distance to the stairs overflows");
    stairs.last_transition_tick = 99;
    assert!(frame_fits_check(&state, &idle, &stairs, false, true), "no check in the cooldown");
}
