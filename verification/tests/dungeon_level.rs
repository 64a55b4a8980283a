use devilutionx::dungeon_level::{
    build_catacombs_layout, build_caves_layout, build_hell_layout, stamp_dungeon_layout,
};
use devilutionx::tileset::TilEntry;
use devilutionx::dungeon_level::{count_filled, scan_level_doors, DUNGEON_BG_TIL_INDEX};
use devilutionx::game_state::DungeonLayout;
use devilutionx::levels::MAXDUNX;
use devilutionx::objdat::ObjectId;

#[test]
fn test_scan_level_doors_matches_cpp_micro_values() {
    let mut layout = DungeonLayout::default();
    for v in layout.d_piece.iter_mut() {
        *v = 99;
    }
    layout.d_piece[10 * MAXDUNX + 10] = 43;
    layout.d_piece[10 * MAXDUNX + 11] = 50;
    layout.d_piece[10 * MAXDUNX + 12] = 213;
    layout.d_piece[10 * MAXDUNX + 13] = 45;
    layout.d_piece[10 * MAXDUNX + 14] = 55;
    let doors = scan_level_doors(1, &layout);
    assert_eq!(
        doors,
        vec![
            (10, 10, ObjectId::L1LDoor),
            (11, 10, ObjectId::L1LDoor),
            (12, 10, ObjectId::L1LDoor),
            (13, 10, ObjectId::L1RDoor),
            (14, 10, ObjectId::L1RDoor),
        ]
    );

    let mut layout2 = DungeonLayout::default();
    for v in layout2.d_piece.iter_mut() {
        *v = 99;
    }
    layout2.d_piece[10 * MAXDUNX + 10] = 12;
    layout2.d_piece[10 * MAXDUNX + 11] = 540;
    layout2.d_piece[10 * MAXDUNX + 12] = 16;
    layout2.d_piece[10 * MAXDUNX + 13] = 541;
    let doors2 = scan_level_doors(2, &layout2);
    assert_eq!(
        doors2,
        vec![
            (10, 10, ObjectId::L2LDoor),
            (11, 10, ObjectId::L2LDoor),
            (12, 10, ObjectId::L2RDoor),
            (13, 10, ObjectId::L2RDoor),
        ]
    );

    let mut layout3 = DungeonLayout::default();
    for v in layout3.d_piece.iter_mut() {
        *v = 99;
    }
    layout3.d_piece[10 * MAXDUNX + 10] = 530;
    layout3.d_piece[10 * MAXDUNX + 11] = 533;
    let doors3 = scan_level_doors(3, &layout3);
    assert_eq!(doors3, vec![(10, 10, ObjectId::L3LDoor), (11, 10, ObjectId::L3RDoor)]);

    assert!(scan_level_doors(4, &layout).is_empty());
}

#[test]
fn lights_come_first_in_row_order() {
    let mut layout = DungeonLayout::default();
    layout.d_piece[5 * MAXDUNX + 7] = 269;
    layout.d_piece[2 * MAXDUNX + 100] = 45;
    layout.d_piece[111 * MAXDUNX + 111] = 213;
    assert_eq!(
        scan_level_doors(1, &layout),
        vec![(100, 2, ObjectId::L1RDoor), (7, 5, ObjectId::L1Light), (111, 111, ObjectId::L1LDoor)]
    );
    assert!(scan_level_doors(2, &layout).is_empty());
    assert!(scan_level_doors(0, &layout).is_empty());
}

#[test]
fn count_filled_counts_non_zero_pieces() {
    let mut layout = DungeonLayout::default();
    assert_eq!(count_filled(&layout), 0);
    layout.d_piece[0] = 1;
    layout.d_piece[500] = 42;
    layout.d_piece[112 * 112 - 1] = 7;
    assert_eq!(count_filled(&layout), 3);
    assert_eq!(DUNGEON_BG_TIL_INDEX, [0, 7, 11, 7, 29]);
}

fn synthetic_til(n: u16) -> Vec<TilEntry> {
    (0..n).map(|i| TilEntry { micro1: i, micro2: i + 1, micro3: i + 2, micro4: i + 3 }).collect()
}

/// A 40x40 level, column by column, with tile ids cycling through 0..=250.
fn synthetic_level() -> Vec<u8> {
    (0..1600).map(|k| ((k * 7) % 251) as u8).collect()
}

fn synthetic_trans() -> Vec<i8> {
    (0..(112 * 112)).map(|k| (k % 13) as i8).collect()
}

#[test]
fn stamp_dungeon_layout_draws_each_tile_block() {
    let til = synthetic_til(200);
    let tiles = synthetic_level();
    let layout = stamp_dungeon_layout(&tiles, &synthetic_trans(), &til, &[1, 2, 3], 11);
    assert_eq!(layout.width, MAXDUNX);
    assert!(count_filled(&layout) > 0);
    assert_eq!(layout.sol, vec![1, 2, 3], "the solidity table is kept");
    let mut yy = 16usize;
    for j in 0..40 {
        let mut xx = 16usize;
        for i in 0..40 {
            let tile_id = tiles[i * 40 + j] as usize;
            let b = yy * MAXDUNX + xx;
            let e = if tile_id > 0 && tile_id - 1 < til.len() { til[tile_id - 1] } else { til[11] };
            let bg = tile_id == 0 || tile_id - 1 >= til.len();
            assert_eq!(layout.d_piece[b], e.micro1, "tile ({},{}) micro1", i, j);
            assert_eq!(layout.d_piece[b + 1], e.micro2, "tile ({},{}) micro2", i, j);
            assert_eq!(layout.d_piece[b + MAXDUNX], e.micro3, "tile ({},{}) micro3 bg={}", i, j, bg);
            assert_eq!(layout.d_piece[b + MAXDUNX + 1], e.micro4, "tile ({},{}) micro4", i, j);
            xx += 2;
        }
        yy += 2;
    }
}

#[test]
fn stamp_dungeon_layout_fills_the_border_with_the_background() {
    let til = synthetic_til(40);
    let layout = stamp_dungeon_layout(&synthetic_level(), &synthetic_trans(), &til, &[], 29);
    assert_eq!(layout.d_piece[0], 29);
    assert_eq!(layout.d_piece[1], 30);
    assert_eq!(layout.d_piece[MAXDUNX], 31);
    assert_eq!(layout.d_piece[111 * MAXDUNX + 111], 32);
    assert_eq!(layout.d_piece[100 * MAXDUNX + 5], 30);
    // No such background mega: the border stays 0.
    let bare = stamp_dungeon_layout(&vec![0u8; 1600], &synthetic_trans(), &til, &[], 500);
    assert_eq!(count_filled(&bare), 0);
}

#[test]
fn stamp_dungeon_layout_copies_transparency_row_by_row() {
    let trans = synthetic_trans();
    let layout = stamp_dungeon_layout(&vec![0u8; 1600], &trans, &synthetic_til(4), &[], 0);
    for &(x, y) in &[(0usize, 0usize), (3, 70), (111, 2), (50, 111)] {
        assert_eq!(layout.trans_val[y * MAXDUNX + x], trans[x * MAXDUNX + y]);
    }
    assert!(layout.pre_light.iter().all(|&l| l == 15));
    assert!(layout.floor_tiles.is_empty());
}

#[test]
fn level_builders_use_their_background() {
    let til = synthetic_til(40);
    let tiles = vec![0u8; 1600];
    let trans = synthetic_trans();
    let cat = build_catacombs_layout(&tiles, &trans, &til, &[7, 0, 9]);
    assert_eq!(cat.d_piece[0], DUNGEON_BG_TIL_INDEX[2] as u16);
    assert_eq!(cat.sol, vec![7, 0, 9]);
    assert_eq!(build_caves_layout(&tiles, &trans, &til, &[]).d_piece[0], DUNGEON_BG_TIL_INDEX[3] as u16);
    assert_eq!(build_hell_layout(&tiles, &trans, &til, &[]).d_piece[0], DUNGEON_BG_TIL_INDEX[4] as u16);
}

#[test]
fn test_non_caves_layout_keeps_dark_pre_light() {
    let til: Vec<TilEntry> = (0..200).map(|_| TilEntry { micro1: 60, micro2: 60, micro3: 60, micro4: 60 }).collect();
    let mut tiles = vec![0u8; 1600];
    tiles[20 * 40 + 20] = 60;
    let trans = vec![0i8; MAXDUNX * MAXDUNX];
    let layout = stamp_dungeon_layout(&tiles, &trans, &til, &[], DUNGEON_BG_TIL_INDEX[2]);
    assert!(layout.pre_light.iter().all(|&v| v == 15));
}
