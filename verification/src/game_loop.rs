//! The game loop's logic: the kind of level, the town's micro-tile grid
//! built from its sector templates, the up stairs of a dungeon level, the
//! experience still needed to level up, walking and click-to-move, stair
//! transitions, the shop panel's layout and clicks, the tile under the
//! mouse, the handling of window events, the steps of each frame, and the
//! numbers the character panel, quest log and automap show.

use vstd::prelude::*;
use crate::game_state::{
    TownLayout, DungeonLayout, TOWN_MAX_X, TOWN_MAX_Y, grid_cell, grid_with,
    lemma_grid_set_then_get, GameState, Camera, sign, keep_inside, chebyshev, diff_fits,
    TOWN_DOWN_STAIRS, STAIRS_TRIGGER_RADIUS, STAIRS_COOLDOWN_TICKS, shop_catalog, buy_outcome, abs_diff,
    Towner, nearest_towner, no_towner_near, revived,
};
use crate::player::Player;
use crate::types::Point;
use crate::input::{InputSystem, movement};
use crate::numeric::{div_i32, trunc_div, lemma_trunc_div_shrinks, lemma_trunc_div_bound};
use crate::tileset::{TilEntry, DunTemplate, micros, micro_at};
use crate::hud::{XP_THRESHOLDS, MAX_PLAYER_LEVEL};
use crate::input::{
    KEY_W, KEY_A, KEY_S, KEY_D, KEY_UP, KEY_DOWN, KEY_LEFT, KEY_RIGHT, KEY_NUM1, KEY_NUM9, KEY_KP1,
    KEY_KP9, KEY_C, KEY_Q, KEY_B, KEY_ESCAPE, MOUSE_LEFT, key_down_step, key_up_step, KEY_T, KEY_F,
    KEY_SPACE, KEY_RETURN, KEY_RETURN2, KEY_KP_ENTER, KEY_F5, KEY_F9,
};

verus! {

/// Kinds of level.
#[derive(Debug, Clone, Copy, PartialEq, Eq, Structural)]
pub enum LevelType {
    /// The town.
    Town,
    /// The cathedral.
    Cathedral,
    /// The catacombs.
    Catacombs,
    /// The caves.
    Caves,
    /// Hell.
    Hell,
    /// The nest.
    Nest,
    /// The crypt.
    Crypt,
}

impl Default for LevelType {
    /// The town.
    fn default() -> (t: Self)
        ensures
            t == LevelType::Town,
    {
        LevelType::Town
    }
}

impl LevelType {
    /// Whether this is the town.
    pub fn is_town(&self) -> (b: bool)
        ensures
            b == (*self == LevelType::Town),
    {
        match self {
            LevelType::Town => true,
            _ => false,
        }
    }

    /// Whether this is a dungeon level.
    pub fn is_dungeon(&self) -> (b: bool)
        ensures
            b == (*self != LevelType::Town),
    {
        !self.is_town()
    }
}

/// The four micro-tiles of the 1-based mega-tile `tile_id` of `til`; none
/// for 0 or an id past the table.
pub open spec fn mega_spec(til: Seq<TilEntry>, tile_id: u16) -> Option<(u16, u16, u16, u16)> {
    if tile_id == 0 || tile_id - 1 >= til.len() {
        None
    } else {
        Some(micros(til[tile_id - 1]))
    }
}

/// The four micro-tiles of the 1-based mega-tile `tile_id`.
pub fn mega_for_tile_id(til: &[TilEntry], tile_id: u16) -> (r: Option<(u16, u16, u16, u16)>)
    ensures
        r == mega_spec(til@, tile_id),
{
    if tile_id == 0 {
        return None;
    }
    let idx = (tile_id - 1) as usize;
    if idx >= til.len() {
        return None;
    }
    let t = til[idx];
    Some((t.micro1, t.micro2, t.micro3, t.micro4))
}

/// The block a sector tile is drawn with: its own mega-tile, else that of
/// tile 218, else four times piece 426.
pub open spec fn sector_mega(til: Seq<TilEntry>, tile_id: u16) -> (u16, u16, u16, u16) {
    match mega_spec(til, tile_id) {
        Some(m) => m,
        None => match mega_spec(til, 218) {
            Some(m) => m,
            None => (426, 426, 426, 426),
        },
    }
}

/// The id at column `i`, row `j` of a sector; 0 past its tiles.
pub open spec fn sector_tile(s: DunTemplate, i: int, j: int) -> u16 {
    let k = j * (s.width as int) + i;
    if 0 <= k < s.tiles@.len() {
        s.tiles@[k]
    } else {
        0
    }
}

/// Whether the sector drawn from `(xi, yi)` covers the micro-tile `(x, y)`.
pub open spec fn sector_covers(s: DunTemplate, xi: int, yi: int, x: int, y: int) -> bool {
    xi <= x < xi + 2 * s.width && yi <= y < yi + 2 * s.height
}

/// The piece the sector drawn from `(xi, yi)` puts at `(x, y)`.
pub open spec fn sector_piece(til: Seq<TilEntry>, s: DunTemplate, xi: int, yi: int, x: int, y: int) -> u16 {
    micro_at(
        sector_mega(til, sector_tile(s, (x - xi) / 2, (y - yi) / 2)),
        (x - xi) % 2,
        (y - yi) % 2,
    )
}

/// The piece at `(x, y)` once the sector (if any) drawn from `(xi, yi)` is
/// laid over `below`.
pub open spec fn layered(
    til: Seq<TilEntry>,
    s: Option<&DunTemplate>,
    xi: int,
    yi: int,
    x: int,
    y: int,
    below: u16,
) -> u16 {
    match s {
        Some(t) => if sector_covers(*t, xi, yi, x, y) {
            sector_piece(til, *t, xi, yi, x, y)
        } else {
            below
        },
        None => below,
    }
}

/// The town's piece at `(x, y)`: ground (426) under the four sectors, drawn
/// from (46, 46), (46, 0), (0, 46) and (0, 0) in that order.
pub open spec fn town_piece(
    til: Seq<TilEntry>,
    s1: Option<&DunTemplate>,
    s2: Option<&DunTemplate>,
    s3: Option<&DunTemplate>,
    s4: Option<&DunTemplate>,
    x: int,
    y: int,
) -> u16 {
    layered(
        til,
        s4,
        0,
        0,
        x,
        y,
        layered(til, s3, 0, 46, x, y, layered(til, s2, 46, 0, x, y, layered(til, s1, 46, 46, x, y, 426))),
    )
}

/// Draws the block `mega` with its top-left micro-tile at `(xx, yy)`; parts
/// outside the grid are left out.
pub(crate) fn place_mega(layout: &mut TownLayout, xx: usize, yy: usize, mega: (u16, u16, u16, u16))
    requires
        old(layout).wf(),
        xx + 1 <= i32::MAX,
        yy + 1 <= i32::MAX,
    ensures
        final(layout).wf(),
        final(layout).width == old(layout).width,
        final(layout).height == old(layout).height,
        final(layout).d_piece@.len() == old(layout).d_piece@.len(),
        forall|x: int, y: int|
            #[trigger] final(layout).cell(x, y) == (if xx <= x <= xx + 1 && yy <= y <= yy + 1 && 0
                <= x < old(layout).width && 0 <= y < old(layout).height {
                micro_at(mega, x - xx, y - yy)
            } else {
                old(layout).cell(x, y)
            }),
{
    let ghost w = layout.width as int;
    let ghost h = layout.height as int;
    let ghost d0 = layout.d_piece@;
    let (m1, m2, m3, m4) = mega;
    layout.set(xx as i32, yy as i32, m1);
    let ghost d1 = layout.d_piece@;
    layout.set(xx as i32 + 1, yy as i32, m2);
    let ghost d2 = layout.d_piece@;
    layout.set(xx as i32, yy as i32 + 1, m3);
    let ghost d3 = layout.d_piece@;
    layout.set(xx as i32 + 1, yy as i32 + 1, m4);
    proof {
        assert forall|x: int, y: int|
            #[trigger] layout.cell(x, y) == (if xx <= x <= xx + 1 && yy <= y <= yy + 1 && 0 <= x
                < w && 0 <= y < h {
                micro_at(mega, x - xx, y - yy)
            } else {
                grid_cell(d0, w, h, x, y)
            }) by {
            lemma_grid_set_then_get(d0, w, h, xx as int, yy as int, m1, x, y);
            lemma_grid_set_then_get(d1, w, h, xx + 1, yy as int, m2, x, y);
            lemma_grid_set_then_get(d2, w, h, xx as int, yy + 1, m3, x, y);
            lemma_grid_set_then_get(d3, w, h, xx + 1, yy + 1, m4, x, y);
        }
    }
}

/// Whether the block of column `bi`, row `bj` of a sector comes before the
/// block of column `i`, row `j`, row by row.
pub open spec fn block_before(bi: int, bj: int, i: int, j: int) -> bool {
    bj < j || (bj == j && bi < i)
}

/// The piece at `(x, y)` once the blocks of `s` before column `i`, row `j`
/// are drawn from `(xi, yi)` over `below`.
pub open spec fn partly_drawn(
    til: Seq<TilEntry>,
    s: DunTemplate,
    xi: int,
    yi: int,
    i: int,
    j: int,
    x: int,
    y: int,
    below: u16,
) -> u16 {
    if sector_covers(s, xi, yi, x, y) && block_before((x - xi) / 2, (y - yi) / 2, i, j) {
        sector_piece(til, s, xi, yi, x, y)
    } else {
        below
    }
}

/// Draws the sector, if any, with its top-left block at `(xi, yi)`: each
/// tile id becomes the 2x2 block of its mega-tile (see `sector_mega`).
fn fill_sector(
    layout: &mut TownLayout,
    til: &[TilEntry],
    sector: Option<&DunTemplate>,
    xi: usize,
    yi: usize,
)
    requires
        old(layout).wf(),
        xi + 2 * 65536 <= i32::MAX,
        yi + 2 * 65536 <= i32::MAX,
    ensures
        final(layout).wf(),
        final(layout).width == old(layout).width,
        final(layout).height == old(layout).height,
        final(layout).d_piece@.len() == old(layout).d_piece@.len(),
        forall|x: int, y: int|
            #[trigger] final(layout).cell(x, y) == (if 0 <= x < old(layout).width && 0 <= y
                < old(layout).height {
                layered(til@, sector, xi as int, yi as int, x, y, old(layout).cell(x, y))
            } else {
                0
            }),
{
    let sector = match sector {
        Some(s) => s,
        None => {
            return;
        },
    };
    let ghost before = *layout;
    let ghost w = layout.width as int;
    let ghost h = layout.height as int;
    let width = sector.width as usize;
    let height = sector.height as usize;
    let mut yy = yi;
    let mut j: usize = 0;
    while j < height
        invariant
            layout.wf(),
            layout.width == before.width,
            layout.height == before.height,
            layout.d_piece@.len() == before.d_piece@.len(),
            w == before.width,
            h == before.height,
            width == sector.width,
            height == sector.height,
            0 <= j <= height,
            yy == yi + 2 * j,
            yi + 2 * 65536 <= i32::MAX,
            xi + 2 * 65536 <= i32::MAX,
            forall|x: int, y: int|
                #[trigger] layout.cell(x, y) == (if 0 <= x < w && 0 <= y < h {
                    partly_drawn(til@, *sector, xi as int, yi as int, 0, j as int, x, y, before.cell(x, y))
                } else {
                    0
                }),
        decreases height - j,
    {
        let mut xx = xi;
        let mut i: usize = 0;
        while i < width
            invariant
                layout.wf(),
                layout.width == before.width,
                layout.height == before.height,
                layout.d_piece@.len() == before.d_piece@.len(),
                w == before.width,
                h == before.height,
                width == sector.width,
                height == sector.height,
                0 <= j < height,
                0 <= i <= width,
                yy == yi + 2 * j,
                xx == xi + 2 * i,
                yi + 2 * 65536 <= i32::MAX,
                xi + 2 * 65536 <= i32::MAX,
                forall|x: int, y: int|
                    #[trigger] layout.cell(x, y) == (if 0 <= x < w && 0 <= y < h {
                        partly_drawn(til@, *sector, xi as int, yi as int, i as int, j as int, x, y, before.cell(x, y))
                    } else {
                        0
                    }),
            decreases width - i,
        {
            assert(j * width + i < 65536 * 65536) by (nonlinear_arith)
                requires
                    j < height <= 65535,
                    i < width <= 65535,
            ;
            let k = j * width + i;
            let raw = if k < sector.tiles.len() {
                sector.tiles[k]
            } else {
                0
            };
            assert(raw == sector_tile(*sector, i as int, j as int));
            let mega = match mega_for_tile_id(til, raw) {
                Some(m) => m,
                None => match mega_for_tile_id(til, 218) {
                    Some(m) => m,
                    None => (426, 426, 426, 426),
                },
            };
            let ghost prev = *layout;
            place_mega(layout, xx, yy, mega);
            proof {
                assert forall|x: int, y: int|
                    #[trigger] layout.cell(x, y) == (if 0 <= x < w && 0 <= y < h {
                        partly_drawn(til@, *sector, xi as int, yi as int, i + 1, j as int, x, y, before.cell(x, y))
                    } else {
                        0
                    }) by {
                    assert(prev.cell(x, y) == (if 0 <= x < w && 0 <= y < h {
                        partly_drawn(til@, *sector, xi as int, yi as int, i as int, j as int, x, y, before.cell(x, y))
                    } else {
                        0
                    }));
                    if xx <= x <= xx + 1 && yy <= y <= yy + 1 {
                        assert((x - xi) / 2 == i && (y - yi) / 2 == j);
                        assert((x - xi) % 2 == x - xx && (y - yi) % 2 == y - yy);
                        assert(sector_covers(*sector, xi as int, yi as int, x, y));
                    } else if sector_covers(*sector, xi as int, yi as int, x, y) {
                        assert(!((x - xi) / 2 == i && (y - yi) / 2 == j));
                    }
                }
            }
            xx = xx + 2;
            i = i + 1;
        }
        proof {
            assert forall|x: int, y: int|
                #[trigger] layout.cell(x, y) == (if 0 <= x < w && 0 <= y < h {
                    partly_drawn(til@, *sector, xi as int, yi as int, 0, j + 1, x, y, before.cell(x, y))
                } else {
                    0
                }) by {
                assert(layout.cell(x, y) == (if 0 <= x < w && 0 <= y < h {
                    partly_drawn(til@, *sector, xi as int, yi as int, width as int, j as int, x, y, before.cell(x, y))
                } else {
                    0
                }));
                if sector_covers(*sector, xi as int, yi as int, x, y) {
                    assert((x - xi) / 2 < width);
                }
            }
        }
        yy = yy + 2;
        j = j + 1;
    }
    proof {
        assert forall|x: int, y: int|
            #[trigger] layout.cell(x, y) == (if 0 <= x < w && 0 <= y < h {
                layered(til@, Some(sector), xi as int, yi as int, x, y, before.cell(x, y))
            } else {
                0
            }) by {
            assert(layout.cell(x, y) == (if 0 <= x < w && 0 <= y < h {
                partly_drawn(til@, *sector, xi as int, yi as int, 0, height as int, x, y, before.cell(x, y))
            } else {
                0
            }));
            if sector_covers(*sector, xi as int, yi as int, x, y) {
                assert((y - yi) / 2 < height);
            }
        }
    }
}

/// Builds the town's 112x112 micro-tile grid: ground (piece 426)
/// everywhere, then the four sectors laid over it from (46, 46), (46, 0),
/// (0, 46) and (0, 0), each tile id drawn as the 2x2 block of its
/// mega-tile in `til` (see `sector_mega`).
pub fn build_town_layout(
    til: &[TilEntry],
    sector1s: Option<&DunTemplate>,
    sector2s: Option<&DunTemplate>,
    sector3s: Option<&DunTemplate>,
    sector4s: Option<&DunTemplate>,
) -> (layout: TownLayout)
    ensures
        layout.width == TOWN_MAX_X,
        layout.height == TOWN_MAX_Y,
        layout.d_piece@.len() == TOWN_MAX_X * TOWN_MAX_Y,
        forall|x: int, y: int|
            0 <= x < TOWN_MAX_X && 0 <= y < TOWN_MAX_Y ==> #[trigger] layout.cell(x, y)
                == town_piece(til@, sector1s, sector2s, sector3s, sector4s, x, y),
{
    let mut layout = TownLayout {
        d_piece: vec![426u16; TOWN_MAX_X * TOWN_MAX_Y],
        width: TOWN_MAX_X,
        height: TOWN_MAX_Y,
    };
    let ghost l0 = layout;
    proof {
        assert forall|x: int, y: int|
            0 <= x < TOWN_MAX_X && 0 <= y < TOWN_MAX_Y implies #[trigger] l0.cell(x, y) == 426 by {
            assert(0 <= y * 112 + x < 112 * 112) by (nonlinear_arith)
                requires
                    0 <= x < 112,
                    0 <= y < 112,
            ;
        }
    }
    fill_sector(&mut layout, til, sector1s, 46, 46);
    let ghost l1 = layout;
    fill_sector(&mut layout, til, sector2s, 46, 0);
    let ghost l2 = layout;
    fill_sector(&mut layout, til, sector3s, 0, 46);
    let ghost l3 = layout;
    fill_sector(&mut layout, til, sector4s, 0, 0);
    proof {
        assert forall|x: int, y: int|
            0 <= x < TOWN_MAX_X && 0 <= y < TOWN_MAX_Y implies #[trigger] layout.cell(x, y)
                == town_piece(til@, sector1s, sector2s, sector3s, sector4s, x, y) by {
            assert(l0.cell(x, y) == 426);
            assert(l1.cell(x, y) == layered(til@, sector1s, 46, 46, x, y, 426));
            assert(l2.cell(x, y) == layered(til@, sector2s, 46, 0, x, y, l1.cell(x, y)));
            assert(l3.cell(x, y) == layered(til@, sector3s, 0, 46, x, y, l2.cell(x, y)));
        }
    }
    layout
}

/// The index in a TIL table of the mega-tile of a cathedral's entrance
/// stairs.
pub const L1_ENTRANCE_STAIRS_TIL_INDEX: usize = 12;

/// The piece marking a dungeon's up stairs: the first micro-tile of the
/// entrance-stairs mega-tile, if the table has it.
pub open spec fn up_stairs_piece(til: Seq<TilEntry>) -> Option<u16> {
    if til.len() > L1_ENTRANCE_STAIRS_TIL_INDEX {
        Some(til[L1_ENTRANCE_STAIRS_TIL_INDEX as int].micro1)
    } else {
        None
    }
}

/// Whether the cell at row-major index `k` of a grid of width `w` is at
/// `(x, y)`.
pub open spec fn at_index(w: int, k: int, x: int, y: int) -> bool {
    0 <= x < w && 0 <= y && k == y * w + x
}

/// Finds the up stairs of a dungeon level: the first micro-tile, row by
/// row, holding the entrance-stairs piece (see `up_stairs_piece`); none when
/// the table lacks it, the piece is 0, or no micro-tile holds it.
pub fn find_dungeon_up_stairs(layout: &DungeonLayout, til: &[TilEntry]) -> (r: Option<(i32, i32)>)
    requires
        layout.wf(),
        layout.width <= i32::MAX,
        layout.height <= i32::MAX,
    ensures
        ({
            let w = layout.width as int;
            let h = layout.height as int;
            match r {
                Some((x, y)) => {
                    &&& up_stairs_piece(til@) matches Some(t) && t != 0
                    &&& 0 <= x < w && 0 <= y < h
                    &&& layout.d_piece@[y * w + x] == up_stairs_piece(til@).unwrap()
                    &&& forall|k: int| 0 <= k < y * w + x ==> layout.d_piece@[k] != up_stairs_piece(til@).unwrap()
                },
                None => up_stairs_piece(til@) is None || up_stairs_piece(til@) == Some(0u16)
                    || forall|k: int| 0 <= k < w * h ==> layout.d_piece@[k] != up_stairs_piece(til@).unwrap(),
            }
        }),
{
    if til.len() <= L1_ENTRANCE_STAIRS_TIL_INDEX {
        return None;
    }
    let target = til[L1_ENTRANCE_STAIRS_TIL_INDEX].micro1;
    if target == 0 {
        return None;
    }
    let w = layout.width;
    let h = layout.height;
    let len = layout.d_piece.len();
    let mut y: usize = 0;
    while y < h
        invariant
            layout.wf(),
            w == layout.width,
            h == layout.height,
            len == layout.d_piece@.len(),
            up_stairs_piece(til@) == Some(target),
            target != 0,
            w <= i32::MAX,
            h <= i32::MAX,
            0 <= y <= h,
            forall|k: int| 0 <= k < y * w ==> layout.d_piece@[k] != target,
        decreases h - y,
    {
        let mut x: usize = 0;
        while x < w
            invariant
                layout.wf(),
                w == layout.width,
                h == layout.height,
                len == layout.d_piece@.len(),
                up_stairs_piece(til@) == Some(target),
                target != 0,
                w <= i32::MAX,
                h <= i32::MAX,
                0 <= y < h,
                0 <= x <= w,
                forall|k: int| 0 <= k < y * w + x ==> layout.d_piece@[k] != target,
            decreases w - x,
        {
            assert(y * w + x < w * h) by (nonlinear_arith)
                requires
                    0 <= x < w,
                    0 <= y < h,
            ;
            assert(y * w <= y * w + x);
            let k = y * w + x;
            if layout.d_piece[k] == target {
                return Some((x as i32, y as i32));
            }
            x = x + 1;
        }
        assert((y + 1) * w == y * w + w) by (nonlinear_arith);
        y = y + 1;
    }
    assert(y * w == w * h) by (nonlinear_arith)
        requires
            y == h,
    ;
    None
}

/// The experience a hero of level `level` with `exp` experience still needs
/// to reach the next level (the table's entry for the level, level 0 read
/// as 1), 0 once earned; none at the highest level.
pub open spec fn next_level_need(level: u8, exp: u32) -> Option<u32> {
    if level >= MAX_PLAYER_LEVEL {
        None
    } else {
        let next = XP_THRESHOLDS@[if level >= 1 { level - 1 } else { 0 }];
        Some(if exp >= next { 0u32 } else { (next - exp) as u32 })
    }
}

/// The experience a hero of level `level` with `exp` experience still needs
/// to reach the next level, 0 once earned; none at the highest level.
pub fn next_level_threshold(level: u8, exp: u32) -> (r: Option<u32>)
    ensures
        r == next_level_need(level, exp),
{
    if level >= MAX_PLAYER_LEVEL {
        return None;
    }
    let idx: usize = if level >= 1 { (level - 1) as usize } else { 0 };
    let next = XP_THRESHOLDS[idx];
    if exp >= next {
        Some(0)
    } else {
        Some(next - exp)
    }
}

/// Whether `k` is a movement key: W, A, S, D or an arrow.
pub fn is_movement_keycode(k: i32) -> (b: bool)
    ensures
        b == (k == KEY_W || k == KEY_A || k == KEY_S || k == KEY_D || k == KEY_UP || k == KEY_DOWN
            || k == KEY_LEFT || k == KEY_RIGHT),
{
    k == KEY_W || k == KEY_A || k == KEY_S || k == KEY_D || k == KEY_UP || k == KEY_DOWN || k
        == KEY_LEFT || k == KEY_RIGHT
}

/// The spell-book row a digit key selects: 1 to 9, on the main keys or the
/// keypad, select rows 0 to 8; other keys none.
pub fn spell_selection_index(k: i32) -> (r: Option<usize>)
    ensures
        KEY_NUM1 <= k <= KEY_NUM9 ==> r == Some((k - KEY_NUM1) as usize),
        KEY_KP1 <= k <= KEY_KP9 ==> r == Some((k - KEY_KP1) as usize),
        !(KEY_NUM1 <= k <= KEY_NUM9) && !(KEY_KP1 <= k <= KEY_KP9) ==> r is None,
{
    if KEY_NUM1 <= k && k <= KEY_NUM9 {
        Some((k - KEY_NUM1) as usize)
    } else if KEY_KP1 <= k && k <= KEY_KP9 {
        Some((k - KEY_KP1) as usize)
    } else {
        None
    }
}

/// The marker colour of a town dweller of kind `kind`: one colour per kind
/// from 0 to 9, grey for the others.
pub open spec fn towner_colour_spec(kind: u8) -> (u8, u8, u8) {
    if kind == 0 {
        (220, 140, 30)
    } else if kind == 1 {
        (240, 240, 240)
    } else if kind == 2 {
        (120, 30, 30)
    } else if kind == 3 {
        (180, 110, 60)
    } else if kind == 4 {
        (230, 200, 60)
    } else if kind == 5 {
        (170, 80, 170)
    } else if kind == 6 {
        (140, 90, 220)
    } else if kind == 7 {
        (230, 130, 170)
    } else if kind == 8 {
        (60, 200, 90)
    } else if kind == 9 {
        (210, 210, 190)
    } else {
        (140, 140, 140)
    }
}

/// The marker colour of a town dweller of kind `kind`.
pub fn towner_marker_colour(kind: u8) -> (c: (u8, u8, u8))
    ensures
        c == towner_colour_spec(kind),
{
    match kind {
        0 => (220, 140, 30),
        1 => (240, 240, 240),
        2 => (120, 30, 30),
        3 => (180, 110, 60),
        4 => (230, 200, 60),
        5 => (170, 80, 170),
        6 => (140, 90, 220),
        7 => (230, 130, 170),
        8 => (60, 200, 90),
        9 => (210, 210, 190),
        _ => (140, 140, 140),
    }
}

/// One tick of click-to-move toward `target` (see `tick_move_target`): the
/// state and the target left.
pub open spec fn walk_step(g: GameState, target: (i32, i32), mt: Option<(i32, i32)>) -> (GameState, Option<(i32, i32)>) {
    let p = g.player.position;
    let (tx, ty) = target;
    if p.x == tx && p.y == ty {
        (g, None)
    } else {
        let nx = keep_inside(p.x + sign(tx - p.x)) as i32;
        let ny = keep_inside(p.y + sign(ty - p.y)) as i32;
        (
            GameState {
                player: Player { position: Point { x: nx, y: ny }, ..g.player },
                camera: Camera { tile_x: nx, tile_y: ny, sub_x: 0, sub_y: 0 },
                ..g
            },
            if nx == tx && ny == ty { None } else { mt },
        )
    }
}

/// Walks the hero one tile toward `target` (both axes at once, held to the
/// band 4 to 107), the camera following with its sub-tile movement reset;
/// the target is dropped once reached (or when the hero already stands on
/// it, without moving).
pub fn tick_move_target(game_state: &mut GameState, target: (i32, i32), move_target: &mut Option<(i32, i32)>)
    ensures
        (*final(game_state), *final(move_target)) == walk_step(*old(game_state), target, *old(move_target)),
{
    let (tx, ty) = target;
    let cur_x = game_state.player.position.x;
    let cur_y = game_state.player.position.y;
    if cur_x == tx && cur_y == ty {
        *move_target = None;
        return;
    }
    let dx: i32 = if tx > cur_x { 1 } else if tx < cur_x { -1 } else { 0 };
    let dy: i32 = if ty > cur_y { 1 } else if ty < cur_y { -1 } else { 0 };
    let max_x = (TOWN_MAX_X as i32) - 5;
    let max_y = (TOWN_MAX_Y as i32) - 5;
    let nx = if cur_x + dx < 4 { 4 } else if cur_x + dx > max_x { max_x } else { cur_x + dx };
    let ny = if cur_y + dy < 4 { 4 } else if cur_y + dy > max_y { max_y } else { cur_y + dy };
    game_state.player.position.x = nx;
    game_state.player.position.y = ny;
    game_state.camera.tile_x = nx;
    game_state.camera.tile_y = ny;
    game_state.camera.sub_x = 0;
    game_state.camera.sub_y = 0;
    if nx == tx && ny == ty {
        *move_target = None;
    }
}

/// The sub-tile movement per frame, in 1/256 of a tile.
pub const MOVE_SPEED_Q8: i32 = 22;

/// The camera after one frame of movement `(mdx, mdy)` on screen: screen
/// movement turns into world movement `(mdy - mdx, mdy + mdx)`, which adds
/// `MOVE_SPEED_Q8` per unit to the sub-tile accumulators; whole tiles
/// gathered there (toward zero) move the camera, held to the band 4 to 107.
pub open spec fn moved_camera(c: Camera, mdx: int, mdy: int) -> Camera {
    let sx = c.sub_x + (mdy - mdx) * MOVE_SPEED_Q8;
    let sy = c.sub_y + (mdy + mdx) * MOVE_SPEED_Q8;
    let step_x = trunc_div(sx, 256);
    let step_y = trunc_div(sy, 256);
    if step_x != 0 || step_y != 0 {
        Camera {
            tile_x: keep_inside(c.tile_x + step_x) as i32,
            tile_y: keep_inside(c.tile_y + step_y) as i32,
            sub_x: (sx - step_x * 256) as i32,
            sub_y: (sy - step_y * 256) as i32,
        }
    } else {
        Camera { sub_x: sx as i32, sub_y: sy as i32, ..c }
    }
}

/// Whether one frame of movement `(mdx, mdy)` gathers a whole tile in the
/// camera's sub-tile accumulators.
pub open spec fn moves_whole_tile(c: Camera, mdx: int, mdy: int) -> bool {
    trunc_div(c.sub_x + (mdy - mdx) * MOVE_SPEED_Q8, 256) != 0 || trunc_div(
        c.sub_y + (mdy + mdx) * MOVE_SPEED_Q8,
        256,
    ) != 0
}

/// Whether one frame of movement with the keys `held` down stays within
/// `i32`: the sub-tile accumulators after the frame's movement and, when a
/// whole tile is gathered, the camera tile plus the tiles gathered.
pub open spec fn movement_fits(c: Camera, held: Set<i32>) -> bool {
    let (mdx, mdy) = movement(held);
    let sx = c.sub_x + (mdy - mdx) * MOVE_SPEED_Q8;
    let sy = c.sub_y + (mdy + mdx) * MOVE_SPEED_Q8;
    (mdx == 0 && mdy == 0) || {
        &&& fits_i32(sx)
        &&& fits_i32(sy)
        &&& moves_whole_tile(c, mdx, mdy) ==> fits_i32(c.tile_x + trunc_div(sx, 256)) && fits_i32(
            c.tile_y + trunc_div(sy, 256),
        )
    }
}

/// The state after one frame of movement with the keys `held` down (see
/// `apply_movement`).
pub open spec fn movement_step(g: GameState, held: Set<i32>) -> GameState {
    let (mdx, mdy) = movement(held);
    let c = g.camera;
    if mdx == 0 && mdy == 0 {
        g
    } else {
        let n = moved_camera(c, mdx, mdy);
        if moves_whole_tile(c, mdx, mdy) {
            GameState { camera: n, player: Player { position: Point { x: n.tile_x, y: n.tile_y }, ..g.player }, ..g }
        } else {
            GameState { camera: n, ..g }
        }
    }
}

/// Moves the camera by the movement keys held (see `moved_camera`); when it
/// moves a whole tile the hero moves onto the camera's tile.
pub fn apply_movement(game_state: &mut GameState, input: &InputSystem)
    requires
        movement_fits(old(game_state).camera, input.down()),
    ensures
        *final(game_state) == movement_step(*old(game_state), input.down()),
{
    let (mdx, mdy) = input.get_movement_direction();
    if mdx == 0 && mdy == 0 {
        return;
    }
    let world_dx = mdy - mdx;
    let world_dy = mdy + mdx;
    game_state.camera.sub_x = game_state.camera.sub_x + world_dx * MOVE_SPEED_Q8;
    game_state.camera.sub_y = game_state.camera.sub_y + world_dy * MOVE_SPEED_Q8;
    let step_x = div_i32(game_state.camera.sub_x, 256);
    let step_y = div_i32(game_state.camera.sub_y, 256);
    proof {
        lemma_trunc_div_bound(game_state.camera.sub_x as int, 256, 0x8000_0000);
        lemma_trunc_div_bound(game_state.camera.sub_y as int, 256, 0x8000_0000);
    }
    if step_x != 0 || step_y != 0 {
        let max_x = (TOWN_MAX_X as i32) - 5;
        let max_y = (TOWN_MAX_Y as i32) - 5;
        let tx = game_state.camera.tile_x + step_x;
        let ty = game_state.camera.tile_y + step_y;
        let new_x = if tx < 4 { 4 } else if tx > max_x { max_x } else { tx };
        let new_y = if ty < 4 { 4 } else if ty > max_y { max_y } else { ty };
        game_state.camera.tile_x = new_x;
        game_state.camera.tile_y = new_y;
        game_state.camera.sub_x = game_state.camera.sub_x - step_x * 256;
        game_state.camera.sub_y = game_state.camera.sub_y - step_y * 256;
        game_state.player.position.x = new_x;
        game_state.player.position.y = new_y;
    }
}

/// The state after leaving the dungeon for the town (see `return_to_town`).
pub open spec fn town_return(g: GameState) -> GameState {
    GameState {
        in_dungeon: false,
        is_town: true,
        dungeon_layout: None,
        dungeon_up_stairs: None,
        last_transition_tick: g.game_tick,
        camera: Camera { tile_x: 75, tile_y: 68, sub_x: 0, sub_y: 0 },
        player: Player { position: Point { x: 75, y: 68 }, ..g.player },
        ..g
    }
}

/// Leaves the dungeon for the town: no dungeon grid or up stairs, the stairs
/// cooldown restarted, camera and hero on the town spawn.
pub fn return_to_town(game_state: &mut GameState)
    ensures
        *final(game_state) == town_return(*old(game_state)),
{
    game_state.in_dungeon = false;
    game_state.is_town = true;
    game_state.dungeon_layout = None;
    game_state.dungeon_up_stairs = None;
    game_state.mark_stair_transition();
    game_state.init_town_camera();
}

/// What a stairs check leads to.
#[derive(Debug, Clone, Copy, PartialEq, Eq, Structural)]
pub enum StairsTransition {
    /// Nothing happens.
    Stay,
    /// The hero stands at the town's down stairs: the caller builds and
    /// enters the first dungeon level.
    Descend,
    /// The hero stood at a dungeon's up stairs and is back in town.
    Ascended,
}

/// Whether a stairs check stays within `i32`: once the cooldown is over,
/// the hero's distance to the stairs checked (the town's down stairs in
/// town, the level's up stairs, if known, in a dungeon) is measured without
/// overflow.
pub open spec fn stairs_fit(g: GameState) -> bool {
    let p = g.player.position;
    g.game_tick >= g.last_transition_tick && g.game_tick - g.last_transition_tick >= STAIRS_COOLDOWN_TICKS ==> if !g.in_dungeon {
        diff_fits(p.x, TOWN_DOWN_STAIRS.0) && diff_fits(p.y, TOWN_DOWN_STAIRS.1)
    } else {
        match g.dungeon_up_stairs {
            Some((sx, sy)) => diff_fits(p.x, sx) && diff_fits(p.y, sy),
            None => true,
        }
    }
}

/// What a stairs check answers, and the state it leaves (see
/// `check_stairs_transition`).
pub open spec fn stairs_step(g: GameState) -> (StairsTransition, GameState) {
    let p = g.player.position;
    let ready = g.game_tick >= g.last_transition_tick && g.game_tick - g.last_transition_tick
        >= STAIRS_COOLDOWN_TICKS;
    if !ready {
        (StairsTransition::Stay, g)
    } else if !g.in_dungeon {
        if chebyshev(p.x as int, p.y as int, TOWN_DOWN_STAIRS.0 as int, TOWN_DOWN_STAIRS.1 as int)
            <= STAIRS_TRIGGER_RADIUS {
            (StairsTransition::Descend, GameState { last_transition_tick: g.game_tick, ..g })
        } else {
            (StairsTransition::Stay, g)
        }
    } else {
        match g.dungeon_up_stairs {
            Some((sx, sy)) => if chebyshev(p.x as int, p.y as int, sx as int, sy as int)
                <= STAIRS_TRIGGER_RADIUS {
                (StairsTransition::Ascended, town_return(g))
            } else {
                (StairsTransition::Stay, g)
            },
            None => (StairsTransition::Stay, g),
        }
    }
}

/// Checks the stairs once the cooldown is over: in town, standing within
/// `STAIRS_TRIGGER_RADIUS` of the down stairs asks to descend; in a dungeon,
/// standing that near its up stairs returns to town (see
/// `return_to_town`). Either restarts the cooldown.
pub fn check_stairs_transition(game_state: &mut GameState) -> (t: StairsTransition)
    requires
        stairs_fit(*old(game_state)),
    ensures
        (t, *final(game_state)) == stairs_step(*old(game_state)),
{
    if !game_state.stairs_cooldown_ready() {
        return StairsTransition::Stay;
    }
    if !game_state.in_dungeon {
        let (sx, sy) = TOWN_DOWN_STAIRS;
        if game_state.player_tile_distance_to(sx, sy) <= STAIRS_TRIGGER_RADIUS {
            game_state.mark_stair_transition();
            return StairsTransition::Descend;
        }
        StairsTransition::Stay
    } else {
        match game_state.dungeon_up_stairs {
            Some((sx, sy)) => {
                if game_state.player_tile_distance_to(sx, sy) <= STAIRS_TRIGGER_RADIUS {
                    return_to_town(game_state);
                    game_state.mark_stair_transition();
                    return StairsTransition::Ascended;
                }
                StairsTransition::Stay
            },
            None => StairsTransition::Stay,
        }
    }
}


/// Width of the logical canvas, in pixels.
pub const LOGICAL_WIDTH: i32 = 640;
/// Height of the logical canvas, in pixels.
pub const LOGICAL_HEIGHT: i32 = 480;
/// Width of the shop panel.
pub const SHOP_PANEL_W: i32 = 420;
/// Height of the shop panel.
pub const SHOP_PANEL_H: i32 = 340;
/// Offset of the option buttons (buy, sell, repair, close) below the panel's top.
pub const SHOP_OPTIONS_Y_OFF: i32 = 56;
/// Height of an option button.
pub const SHOP_OPTION_BTN_H: i32 = 22;
/// Number of option buttons across the panel.
pub const SHOP_NUM_OPTIONS: i32 = 4;
/// Offset of the first goods row below the panel's top.
pub const SHOP_ITEMS_Y_OFF: i32 = 100;
/// Height of a goods row.
pub const SHOP_ITEM_ROW_H: i32 = 24;

/// A rectangle of the canvas: it covers the pixels `x <= px < x + w` and
/// `y <= py < y + h`.
#[derive(Debug, Clone, Copy, PartialEq, Eq, Structural)]
pub struct ScreenRect {
    /// Left edge.
    pub x: i32,
    /// Top edge.
    pub y: i32,
    /// Width.
    pub w: u32,
    /// Height.
    pub h: u32,
}

/// Whether `(px, py)` lies in `r`.
pub open spec fn in_rect(r: ScreenRect, px: int, py: int) -> bool {
    r.x <= px < r.x + r.w && r.y <= py < r.y + r.h
}

/// Whether the point `(x, y)` lies in `rect`, right and bottom edges
/// excluded.
pub fn point_in_rect(x: i32, y: i32, rect: ScreenRect) -> (b: bool)
    ensures
        b == in_rect(rect, x as int, y as int),
{
    let right: i64 = rect.x as i64 + rect.w as i64;
    let bottom: i64 = rect.y as i64 + rect.h as i64;
    x >= rect.x && (x as i64) < right && y >= rect.y && (y as i64) < bottom
}

/// The shop panel, centred on the canvas.
pub open spec fn shop_panel_rect() -> ScreenRect {
    ScreenRect { x: 110, y: 70, w: 420, h: 340 }
}

/// Option button `i` (0 buy, 1 sell, 2 repair, 3 close): 96 pixels wide,
/// 6 apart, 8 in from the panel's left edge.
pub open spec fn shop_option_rect(i: int) -> ScreenRect {
    ScreenRect { x: (118 + 102 * i) as i32, y: 126, w: 96, h: 22 }
}

/// Goods row `i`: the panel's width less 12 pixels each side, one row
/// height below the one before.
pub open spec fn shop_row_rect(i: int) -> ScreenRect {
    ScreenRect { x: 122, y: (170 + 24 * i) as i32, w: 396, h: 24 }
}

/// The layout of the shop panel: the panel, its four option buttons, and
/// one row for each good of the open shop.
pub fn shop_panel_geometry(game_state: &GameState) -> (r: (ScreenRect, Vec<ScreenRect>, Vec<ScreenRect>))
    ensures
        r.0 == shop_panel_rect(),
        r.1@ == Seq::new(4, |i: int| shop_option_rect(i)),
        r.2@ == Seq::new(shop_catalog(game_state.active_shop_npc).len(), |i: int| shop_row_rect(i)),
{
    let panel_x = (LOGICAL_WIDTH - SHOP_PANEL_W) / 2;
    let panel_y = (LOGICAL_HEIGHT - SHOP_PANEL_H) / 2;
    let panel = ScreenRect { x: panel_x, y: panel_y, w: SHOP_PANEL_W as u32, h: SHOP_PANEL_H as u32 };
    let btn_w = (SHOP_PANEL_W - 16 - (SHOP_NUM_OPTIONS - 1) * 6) / SHOP_NUM_OPTIONS;
    assert(btn_w == 96);
    let mut options: Vec<ScreenRect> = Vec::new();
    let mut i: i32 = 0;
    while i < SHOP_NUM_OPTIONS
        invariant
            0 <= i <= 4,
            panel_x == 110,
            panel_y == 70,
            btn_w == 96,
            options@ == Seq::new(i as nat, |k: int| shop_option_rect(k)),
        decreases 4 - i,
    {
        let bx = panel_x + 8 + i * (btn_w + 6);
        let by = panel_y + SHOP_OPTIONS_Y_OFF;
        options.push(ScreenRect { x: bx, y: by, w: btn_w as u32, h: SHOP_OPTION_BTN_H as u32 });
        i = i + 1;
        assert(options@ =~= Seq::new(i as nat, |k: int| shop_option_rect(k)));
    }
    let row_w = SHOP_PANEL_W - 24;
    let goods = game_state.active_shop_inventory();
    assert(goods@.len() <= 4);
    let n = goods.len() as i32;
    let mut items: Vec<ScreenRect> = Vec::new();
    let mut j: i32 = 0;
    while j < n
        invariant
            0 <= j <= n <= 4,
            n == shop_catalog(game_state.active_shop_npc).len(),
            panel_x == 110,
            panel_y == 70,
            row_w == 396,
            items@ == Seq::new(j as nat, |k: int| shop_row_rect(k)),
        decreases n - j,
    {
        let ry = panel_y + SHOP_ITEMS_Y_OFF + j * SHOP_ITEM_ROW_H;
        items.push(ScreenRect { x: panel_x + 12, y: ry, w: row_w as u32, h: SHOP_ITEM_ROW_H as u32 });
        j = j + 1;
        assert(items@ =~= Seq::new(j as nat, |k: int| shop_row_rect(k)));
    }
    (panel, options, items)
}

/// What a click on the shop panel did.
#[derive(Debug, Clone, Copy, PartialEq, Eq)]
pub enum ShopClick {
    /// The close button: the shop was closed.
    Closed,
    /// Buy, sell or repair (0, 1 or 2), which do nothing yet.
    OptionButton(usize),
    /// A goods row: the row, and what buying it answered.
    Purchase(usize, Result<(&'static str, i32), &'static str>),
    /// Nothing under the click; the panel stays open.
    Missed,
}

/// The goods row under `(px, py)` when the open shop has `n` goods.
pub open spec fn row_under(n: int, px: int, py: int) -> Option<int> {
    if 122 <= px < 518 && 170 <= py < 170 + 24 * n {
        Some((py - 170) / 24)
    } else {
        None
    }
}

/// The option button under `(px, py)`.
pub open spec fn option_under(px: int, py: int) -> Option<int> {
    if 126 <= py < 148 && 118 <= px < 214 {
        Some(0)
    } else if 126 <= py < 148 && 220 <= px < 316 {
        Some(1)
    } else if 126 <= py < 148 && 322 <= px < 418 {
        Some(2)
    } else if 126 <= py < 148 && 424 <= px < 520 {
        Some(3)
    } else {
        None
    }
}

/// What a left click at `(px, py)` on the shop panel does to `g`, and what
/// it reports: the close button closes the shop, the other buttons change
/// nothing, a goods row buys that good (see `buy_outcome`), anywhere else
/// nothing happens.
pub open spec fn shop_click_outcome(g: GameState, px: int, py: int) -> (ShopClick, GameState) {
    let n = shop_catalog(g.active_shop_npc).len() as int;
    match option_under(px, py) {
        Some(k) => if k == 3 {
            (ShopClick::Closed, GameState { shop_open: false, active_shop_npc: None, ..g })
        } else {
            (ShopClick::OptionButton(k as usize), g)
        },
        None => match row_under(n, px, py) {
            Some(i) => (ShopClick::Purchase(i as usize, buy_outcome(g, i).0), buy_outcome(g, i).1),
            None => (ShopClick::Missed, g),
        },
    }
}

/// A point lies in goods row `i` exactly when `row_under` names that row.
proof fn lemma_row_under(n: int, i: int, px: int, py: int)
    requires
        0 <= i < n <= 4,
    ensures
        in_rect(shop_row_rect(i), px, py) <==> row_under(n, px, py) == Some(i),
{
    assert(shop_row_rect(i).y == 170 + 24 * i);
    assert(170 + 24 * i <= py < 194 + 24 * i ==> (py - 170) / 24 == i) by (nonlinear_arith);
    assert(170 <= py && (py - 170) / 24 == i ==> 170 + 24 * i <= py < 194 + 24 * i) by (nonlinear_arith);
}

/// A click inside goods row `i` of the shop panel, drawn from the layout of
/// `shop_panel_geometry`, buys good `i` of the open shop when the hero can
/// pay for it: the good is reported and its price paid.
pub proof fn lemma_row_click_buys(g: GameState, i: int, px: int, py: int)
    requires
        g.shop_open,
        0 <= i < shop_catalog(g.active_shop_npc).len(),
        in_rect(shop_row_rect(i), px, py),
        g.player._p_gold >= shop_catalog(g.active_shop_npc)[i].1,
    ensures
        shop_click_outcome(g, px, py) == (
            ShopClick::Purchase(i as usize, Ok(shop_catalog(g.active_shop_npc)[i])),
            GameState {
                player: Player {
                    _p_gold: (g.player._p_gold - shop_catalog(g.active_shop_npc)[i].1) as i32,
                    ..g.player
                },
                ..g
            },
        ),
{
    let n = shop_catalog(g.active_shop_npc).len() as int;
    assert(n <= 4);
    lemma_row_under(n, i, px, py);
    assert(shop_row_rect(i).y >= 170);
}

/// Handles a left click at `(mx, my)` while the shop panel is open: the
/// close button closes the shop, the other buttons do nothing, a goods row
/// buys that good (see `buy_outcome`), and anywhere else nothing happens.
pub fn handle_shop_panel_click(game_state: &mut GameState, mx: i32, my: i32) -> (c: ShopClick)
    ensures
        (c, *final(game_state)) == shop_click_outcome(*old(game_state), mx as int, my as int),
{
    let (_panel, options, items) = shop_panel_geometry(game_state);
    if point_in_rect(mx, my, options[3]) {
        game_state.close_shop();
        return ShopClick::Closed;
    }
    let mut i: usize = 0;
    while i < 3
        invariant
            0 <= i <= 3,
            options@ == Seq::new(4, |k: int| shop_option_rect(k)),
            *game_state == *old(game_state),
            !in_rect(shop_option_rect(3), mx as int, my as int),
            forall|k: int| 0 <= k < i ==> !in_rect(#[trigger] shop_option_rect(k), mx as int, my as int),
        decreases 3 - i,
    {
        if point_in_rect(mx, my, options[i]) {
            assert(option_under(mx as int, my as int) == Some(i as int));
            return ShopClick::OptionButton(i);
        }
        i = i + 1;
    }
    assert(option_under(mx as int, my as int) is None) by {
        assert(!in_rect(shop_option_rect(0), mx as int, my as int));
        assert(!in_rect(shop_option_rect(1), mx as int, my as int));
        assert(!in_rect(shop_option_rect(2), mx as int, my as int));
    }
    let ghost n = shop_catalog(old(game_state).active_shop_npc).len() as int;
    assert(n <= 4);
    let mut j: usize = 0;
    while j < items.len()
        invariant
            0 <= j <= items@.len(),
            items@ == Seq::new(n as nat, |k: int| shop_row_rect(k)),
            *game_state == *old(game_state),
            n == shop_catalog(old(game_state).active_shop_npc).len(),
            n <= 4,
            forall|k: int| 0 <= k < j ==> !in_rect(#[trigger] shop_row_rect(k), mx as int, my as int),
        decreases items@.len() - j,
    {
        if point_in_rect(mx, my, items[j]) {
            proof {
                lemma_row_under(n, j as int, mx as int, my as int);
            }
            let r = game_state.buy_shop_item(j);
            return ShopClick::Purchase(j, r);
        }
        j = j + 1;
    }
    proof {
        if row_under(n, mx as int, my as int) is Some {
            let k = row_under(n, mx as int, my as int)->0;
            assert(0 <= k < n) by (nonlinear_arith)
                requires
                    170 <= my < 170 + 24 * n,
                    k == (my - 170) / 24,
            ;
            lemma_row_under(n, k, mx as int, my as int);
        }
    }
    ShopClick::Missed
}


/// Width of a floor tile on screen, in pixels.
pub const TILE_WIDTH: i32 = 64;
/// Height of a floor tile on screen, in pixels.
pub const TILE_HEIGHT: i32 = 32;

/// The world tile under canvas point `(mx, my)` when the camera tile
/// `(cx, cy)` is drawn at `(ax, ay)`: a tile offset `(u, v)` from the camera
/// is drawn `(u - v)` half tile widths right and `(u + v)` half tile heights
/// down, and each quotient rounds toward zero.
pub open spec fn screen_to_tile(mx: int, my: int, ax: int, ay: int, cx: int, cy: int) -> (int, int) {
    let diff_uv = trunc_div(mx - ax, 32);
    let sum_uv = trunc_div(my - ay, 16);
    (cx + trunc_div(sum_uv + diff_uv, 2), cy + trunc_div(sum_uv - diff_uv, 2))
}

/// Whether `v` fits in an `i32`.
pub open spec fn fits_i32(v: int) -> bool {
    i32::MIN <= v <= i32::MAX
}

/// Whether taking the canvas point `(mx, my)` to a world tile stays within
/// `i32`: its offsets from `anchor` and the tile found.
pub open spec fn convert_fits(mx: i32, my: i32, anchor: (i32, i32), cx: i32, cy: i32) -> bool {
    let t = screen_to_tile(mx as int, my as int, anchor.0 as int, anchor.1 as int, cx as int, cy as int);
    &&& fits_i32(mx - anchor.0)
    &&& fits_i32(my - anchor.1)
    &&& fits_i32(t.0)
    &&& fits_i32(t.1)
}

/// The world tile under canvas point `(mx, my)`, where `anchor` is the
/// canvas point at which the camera tile `(cam_tile_x, cam_tile_y)` is
/// drawn (see `screen_to_tile`).
pub fn convert_screen_to_tile(mx: i32, my: i32, anchor: (i32, i32), cam_tile_x: i32, cam_tile_y: i32) -> (t: (i32, i32))
    requires
        convert_fits(mx, my, anchor, cam_tile_x, cam_tile_y),
    ensures
        t.0 == screen_to_tile(mx as int, my as int, anchor.0 as int, anchor.1 as int, cam_tile_x as int, cam_tile_y as int).0,
        t.1 == screen_to_tile(mx as int, my as int, anchor.0 as int, anchor.1 as int, cam_tile_x as int, cam_tile_y as int).1,
{
    let (ax, ay) = anchor;
    let rel_x = mx - ax;
    let rel_y = my - ay;
    let diff_uv = div_i32(rel_x, TILE_WIDTH / 2);
    let sum_uv = div_i32(rel_y, TILE_HEIGHT / 2);
    proof {
        lemma_trunc_div_bound(rel_x as int, 32, 0x8000_0000);
        lemma_trunc_div_bound(rel_y as int, 16, 0x8000_0000);
    }
    let u = div_i32(sum_uv + diff_uv, 2);
    let v = div_i32(sum_uv - diff_uv, 2);
    (cam_tile_x + u, cam_tile_y + v)
}

/// Exact division rounding toward zero: `k * d / d == k`.
proof fn lemma_trunc_div_exact(k: int, d: int)
    requires
        d >= 1,
    ensures
        trunc_div(k * d, d) == k,
{
    if k >= 0 {
        assert((k * d) / d == k) by (nonlinear_arith)
            requires
                k >= 0,
                d >= 1,
        ;
    } else {
        assert(-(k * d) == (-k) * d) by (nonlinear_arith);
        assert(((-k) * d) / d == -k) by (nonlinear_arith)
            requires
                k < 0,
                d >= 1,
        ;
        assert(k * d < 0) by (nonlinear_arith)
            requires
                k < 0,
                d >= 1,
        ;
    }
}

/// Picking the screen undoes drawing it: the point at which the tile
/// `(cx + u, cy + v)` is drawn, `(u - v)` half tile widths right of and
/// `(u + v)` half tile heights below the camera tile's point `(ax, ay)`,
/// is taken back to that tile.
pub proof fn lemma_screen_to_tile_undoes_projection(u: int, v: int, ax: int, ay: int, cx: int, cy: int)
    ensures
        screen_to_tile(ax + (u - v) * 32, ay + (u + v) * 16, ax, ay, cx, cy) == (cx + u, cy + v),
{
    lemma_trunc_div_exact(u - v, 32);
    lemma_trunc_div_exact(u + v, 16);
    assert((u + v) + (u - v) == u * 2);
    assert((u + v) - (u - v) == v * 2);
    lemma_trunc_div_exact(u, 2);
    lemma_trunc_div_exact(v, 2);
}

/// The game loop's own state: whether it runs, the mouse, the click-to-move
/// target, and which panels are open.
#[derive(Debug, Clone, Copy)]
pub struct GameLoopState {
    /// Whether the loop goes on.
    pub running: bool,
    /// Whether the loop is in its first iterations.
    pub startup: bool,
    /// Whether players are processed.
    pub process_players: bool,
    /// What the loop returns: false when the game was quit.
    pub result: bool,
    /// The mouse, in canvas coordinates.
    pub mouse_pos: (i32, i32),
    /// The tile the hero walks toward after a click on the ground.
    pub move_target: Option<(i32, i32)>,
    /// Whether the character panel is open (C).
    pub char_panel_open: bool,
    /// Whether the quest log is open (Q).
    pub quest_panel_open: bool,
    /// Whether the spell book is open (B).
    pub spellbook_open: bool,
    /// Whether the automap is open (A).
    pub automap_open: bool,
}

impl GameLoopState {
    /// Running, at startup, processing players, the mouse at the canvas
    /// centre, no target, every panel closed.
    pub fn new() -> (s: Self)
        ensures
            s == (GameLoopState {
                running: true,
                startup: true,
                process_players: true,
                result: true,
                mouse_pos: (320, 240),
                move_target: None,
                char_panel_open: false,
                quest_panel_open: false,
                spellbook_open: false,
                automap_open: false,
            }),
    {
        GameLoopState {
            running: true,
            startup: true,
            process_players: true,
            result: true,
            mouse_pos: (320, 240),
            move_target: None,
            char_panel_open: false,
            quest_panel_open: false,
            spellbook_open: false,
            automap_open: false,
        }
    }
}

/// What the window reports to the game loop.
#[derive(Debug, Clone, Copy, PartialEq, Eq)]
pub enum LoopEvent {
    /// The window was closed.
    Quit,
    /// A key went down.
    KeyDown(i32),
    /// A key went up.
    KeyUp(i32),
    /// The mouse moved to a canvas point.
    MouseMotion(i32, i32),
    /// A mouse button went down at a canvas point.
    MouseButtonDown(i32, i32),
    /// A mouse button (by number) went up at a canvas point.
    MouseButtonUp(u8, i32, i32),
    /// Anything else.
    Other,
}

/// What the caller of `handle_event` still has to do.
#[derive(Debug, Clone, Copy, PartialEq, Eq)]
pub enum EventEffect {
    /// Nothing.
    Nothing,
    /// Play the interface click.
    ClickSound,
    /// Ready the hero's known spell at this row of the spell book.
    SpellSlot(usize),
    /// The shop panel took the click, with this outcome.
    Shop(ShopClick),
    /// The shop of this dweller was opened.
    OpenedShop(Towner),
}

/// Whether `k` is a movement key: W, A, S, D or an arrow.
pub open spec fn movement_key(k: i32) -> bool {
    k == KEY_W || k == KEY_A || k == KEY_S || k == KEY_D || k == KEY_UP || k == KEY_DOWN || k == KEY_LEFT
        || k == KEY_RIGHT
}

/// The spell-book row a digit key selects (1 to 9 on the main keys or the
/// keypad select rows 0 to 8).
pub open spec fn spell_slot(k: i32) -> Option<usize> {
    if KEY_NUM1 <= k <= KEY_NUM9 {
        Some((k - KEY_NUM1) as usize)
    } else if KEY_KP1 <= k <= KEY_KP9 {
        Some((k - KEY_KP1) as usize)
    } else {
        None
    }
}

/// Whether dweller kind `kind` runs a shop.
pub open spec fn shop_keeper(kind: u8) -> bool {
    kind == 0 || kind == 1 || kind == 6 || kind == 8
}

/// The loop state after key `k` (not Escape) went down: a movement key
/// drops the click-to-move target, and C, Q, B and A flip the character
/// panel, the quest log, the spell book and the automap.
pub open spec fn after_key(s: GameLoopState, k: i32) -> GameLoopState {
    GameLoopState {
        move_target: if movement_key(k) { None } else { s.move_target },
        char_panel_open: if k == KEY_C { !s.char_panel_open } else { s.char_panel_open },
        quest_panel_open: if k == KEY_Q { !s.quest_panel_open } else { s.quest_panel_open },
        spellbook_open: if k == KEY_B { !s.spellbook_open } else { s.spellbook_open },
        automap_open: if k == KEY_A { !s.automap_open } else { s.automap_open },
        ..s
    }
}

/// Whether handling a left click at `(x, y)` on the world stays within
/// `i32`: taking it to a world tile (see `convert_fits`) and measuring each
/// dweller's distance to that tile.
pub open spec fn click_fits(x: i32, y: i32, anchor: (i32, i32), g: GameState) -> bool {
    let t = screen_to_tile(x as int, y as int, anchor.0 as int, anchor.1 as int, g.camera.tile_x as int, g.camera.tile_y as int);
    &&& convert_fits(x, y, anchor, g.camera.tile_x, g.camera.tile_y)
    &&& forall|i: int|
        0 <= i < g.towners@.len() ==> diff_fits(#[trigger] g.towners@[i].0, t.0 as i32) && diff_fits(
            g.towners@[i].1,
            t.1 as i32,
        )
}

/// Whether `a - b` fits in an `i32` and is not `i32::MIN`.
fn diff_fits_check(a: i32, b: i32) -> (r: bool)
    ensures
        r == diff_fits(a, b),
{
    let d: i64 = a as i64 - b as i64;
    -0x8000_0000i64 < d && d <= 0x7fff_ffffi64
}

/// Whether `click_fits` holds: the test to make before handing a left click
/// on the world to `handle_event`.
pub fn click_fits_check(x: i32, y: i32, anchor: (i32, i32), game_state: &GameState) -> (r: bool)
    ensures
        r == click_fits(x, y, anchor, *game_state),
{
    let rel_x: i64 = x as i64 - anchor.0 as i64;
    let rel_y: i64 = y as i64 - anchor.1 as i64;
    if rel_x < -0x8000_0000i64 || rel_x > 0x7fff_ffffi64 || rel_y < -0x8000_0000i64 || rel_y > 0x7fff_ffffi64 {
        return false;
    }
    let diff_uv = div_i32(rel_x as i32, 32);
    let sum_uv = div_i32(rel_y as i32, 16);
    proof {
        lemma_trunc_div_bound(rel_x as int, 32, 0x8000_0000);
        lemma_trunc_div_bound(rel_y as int, 16, 0x8000_0000);
    }
    let u = div_i32(sum_uv + diff_uv, 2);
    let v = div_i32(sum_uv - diff_uv, 2);
    let wx: i64 = game_state.camera.tile_x as i64 + u as i64;
    let wy: i64 = game_state.camera.tile_y as i64 + v as i64;
    if wx < -0x8000_0000i64 || wx > 0x7fff_ffffi64 || wy < -0x8000_0000i64 || wy > 0x7fff_ffffi64 {
        return false;
    }
    let tx = wx as i32;
    let ty = wy as i32;
    let mut i: usize = 0;
    while i < game_state.towners.len()
        invariant
            0 <= i <= game_state.towners@.len(),
            convert_fits(x, y, anchor, game_state.camera.tile_x, game_state.camera.tile_y),
            tx == screen_to_tile(x as int, y as int, anchor.0 as int, anchor.1 as int, game_state.camera.tile_x as int, game_state.camera.tile_y as int).0,
            ty == screen_to_tile(x as int, y as int, anchor.0 as int, anchor.1 as int, game_state.camera.tile_x as int, game_state.camera.tile_y as int).1,
            forall|k: int| 0 <= k < i ==> diff_fits(#[trigger] game_state.towners@[k].0, tx) && diff_fits(game_state.towners@[k].1, ty),
        decreases game_state.towners@.len() - i,
    {
        let t = game_state.towners[i];
        if !diff_fits_check(t.0, tx) || !diff_fits_check(t.1, ty) {
            assert(!(diff_fits(game_state.towners@[i as int].0, tx) && diff_fits(game_state.towners@[i as int].1, ty)));
            return false;
        }
        i = i + 1;
    }
    true
}

/// Takes one window event: closing the window quits; Escape closes an open
/// shop, else leaves the loop; other keys cancel click-to-move (movement
/// keys), flip panels (C, Q, B, A), pick a spell-book row while the book is
/// open (digits) and go to the input state; mouse moves and presses track
/// the mouse (a press asks for the click sound); a left release goes to the
/// open shop panel, else to the world tile under it (`anchor` is where the
/// camera tile is drawn): a shop-keeping dweller there gets its shop opened,
/// otherwise the tile becomes the click-to-move target. Returns whether the
/// loop goes on, and what is left for the caller to do.
pub fn handle_event(
    event: LoopEvent,
    state: &mut GameLoopState,
    input: &mut InputSystem,
    game_state: &mut GameState,
    anchor: (i32, i32),
) -> (r: (bool, EventEffect))
    requires
        match event {
            LoopEvent::MouseButtonUp(b, x, y) => b == MOUSE_LEFT && !old(game_state).shop_open ==> click_fits(
                x,
                y,
                anchor,
                *old(game_state),
            ),
            _ => true,
        },
    ensures
        ({
            let s = *old(state);
            let g = *old(game_state);
            let inp = *old(input);
            match event {
                LoopEvent::Quit => r == (false, EventEffect::Nothing)
                    && *final(state) == (GameLoopState { result: false, running: false, ..s })
                    && *final(game_state) == g && *final(input) == inp,
                LoopEvent::KeyDown(k) => if k == KEY_ESCAPE {
                    if g.shop_open {
                        r == (true, EventEffect::Nothing) && *final(state) == s
                            && *final(game_state) == (GameState { shop_open: false, active_shop_npc: None, ..g })
                            && *final(input) == inp
                    } else {
                        r == (false, EventEffect::Nothing) && *final(state) == (GameLoopState { running: false, ..s })
                            && *final(game_state) == g && *final(input) == inp
                    }
                } else {
                    let s2 = after_key(s, k);
                    &&& *final(state) == s2
                    &&& r == (true, if s2.spellbook_open && spell_slot(k) is Some {
                        EventEffect::SpellSlot(spell_slot(k)->0)
                    } else {
                        EventEffect::Nothing
                    })
                    &&& *final(game_state) == g
                    &&& key_down_step(inp, *final(input), k)
                },
                LoopEvent::KeyUp(k) => r == (true, EventEffect::Nothing) && *final(state) == s
                    && *final(game_state) == g && key_up_step(inp, *final(input), k),
                LoopEvent::MouseMotion(x, y) => r == (true, EventEffect::Nothing)
                    && *final(state) == (GameLoopState { mouse_pos: (x, y), ..s })
                    && *final(game_state) == g && *final(input) == inp,
                LoopEvent::MouseButtonDown(x, y) => r == (true, EventEffect::ClickSound)
                    && *final(state) == (GameLoopState { mouse_pos: (x, y), ..s })
                    && *final(game_state) == g && *final(input) == inp,
                LoopEvent::MouseButtonUp(b, x, y) => {
                    let s1 = GameLoopState { mouse_pos: (x, y), ..s };
                    let w = screen_to_tile(x as int, y as int, anchor.0 as int, anchor.1 as int, g.camera.tile_x as int, g.camera.tile_y as int);
                    let wx = w.0 as i32;
                    let wy = w.1 as i32;
                    &&& r.0
                    &&& *final(input) == inp
                    &&& if b != MOUSE_LEFT {
                        r.1 == EventEffect::Nothing && *final(state) == s1 && *final(game_state) == g
                    } else if g.shop_open {
                        let o = shop_click_outcome(g, x as int, y as int);
                        r.1 == EventEffect::Shop(o.0) && *final(game_state) == o.1 && *final(state) == s1
                    } else {
                        match r.1 {
                            EventEffect::OpenedShop(t) => nearest_towner(g.towners@, wx, wy, t) && shop_keeper(t.3)
                                && *final(game_state) == (GameState { shop_open: true, active_shop_npc: Some(t.3), ..g })
                                && *final(state) == (GameLoopState { move_target: None, ..s1 }),
                            EventEffect::Nothing => (no_towner_near(g.towners@, wx, wy)
                                || exists|t: Towner| nearest_towner(g.towners@, wx, wy, t) && !shop_keeper(t.3))
                                && *final(game_state) == g
                                && *final(state) == (GameLoopState { move_target: Some((wx, wy)), ..s1 }),
                            _ => false,
                        }
                    }
                },
                LoopEvent::Other => r == (true, EventEffect::Nothing) && *final(state) == s
                    && *final(game_state) == g && *final(input) == inp,
            }
        }),
{
    match event {
        LoopEvent::Quit => {
            state.result = false;
            state.running = false;
            (false, EventEffect::Nothing)
        },
        LoopEvent::KeyDown(k) => {
            if k == KEY_ESCAPE {
                if game_state.shop_open {
                    game_state.close_shop();
                    return (true, EventEffect::Nothing);
                }
                state.running = false;
                return (false, EventEffect::Nothing);
            }
            if is_movement_keycode(k) {
                if state.move_target.is_some() {
                    state.move_target = None;
                }
            }
            if k == KEY_C {
                state.char_panel_open = !state.char_panel_open;
            } else if k == KEY_Q {
                state.quest_panel_open = !state.quest_panel_open;
            } else if k == KEY_B {
                state.spellbook_open = !state.spellbook_open;
            } else if k == KEY_A {
                state.automap_open = !state.automap_open;
            }
            let mut effect = EventEffect::Nothing;
            if state.spellbook_open {
                if let Some(idx) = spell_selection_index(k) {
                    effect = EventEffect::SpellSlot(idx);
                }
            }
            input.on_key_down(k);
            (true, effect)
        },
        LoopEvent::KeyUp(k) => {
            input.on_key_up(k);
            (true, EventEffect::Nothing)
        },
        LoopEvent::MouseMotion(x, y) => {
            state.mouse_pos = (x, y);
            (true, EventEffect::Nothing)
        },
        LoopEvent::MouseButtonDown(x, y) => {
            state.mouse_pos = (x, y);
            (true, EventEffect::ClickSound)
        },
        LoopEvent::MouseButtonUp(b, x, y) => {
            state.mouse_pos = (x, y);
            if b == MOUSE_LEFT {
                if game_state.shop_open {
                    let c = handle_shop_panel_click(game_state, x, y);
                    return (true, EventEffect::Shop(c));
                }
                let (wx, wy) = convert_screen_to_tile(x, y, anchor, game_state.camera.tile_x, game_state.camera.tile_y);
                match game_state.npc_at_tile(wx, wy) {
                    Some(t) => {
                        if GameState::npc_runs_shop(t.3) {
                            game_state.open_shop(t.3);
                            state.move_target = None;
                            return (true, EventEffect::OpenedShop(t));
                        }
                    },
                    None => {},
                }
                state.move_target = Some((wx, wy));
            }
            (true, EventEffect::Nothing)
        },
        LoopEvent::Other => (true, EventEffect::Nothing),
    }
}


/// How many game-logic steps one logic tick runs: 60 at startup (three
/// times the tick rate of 20), else 3.
pub fn game_loop_iterations(startup: bool) -> (n: u16)
    ensures
        n == (if startup { 60u16 } else { 3u16 }),
{
    let tick_rate: u16 = 20;
    if startup { tick_rate * 3 } else { 3 }
}

/// Starts a frame of the game loop, once the window's events are taken: a
/// dead hero pressing Space or Enter (either Return key or the keypad's)
/// comes back to life in town (see `revived`). Returns whether the hero was
/// dead as the frame began, and whether D was pressed by a live hero in
/// town, which asks the caller to build and enter the first dungeon level.
pub fn frame_begin(game_state: &mut GameState, input: &InputSystem) -> (r: (bool, bool))
    ensures
        r.0 == old(game_state).player_dead,
        r.1 == (!old(game_state).player_dead && input.pressed().contains(KEY_D) && !old(game_state).in_dungeon),
        ({
            let p = input.pressed();
            let revive = old(game_state).player_dead && (p.contains(KEY_SPACE) || p.contains(KEY_RETURN)
                || p.contains(KEY_RETURN2) || p.contains(KEY_KP_ENTER));
            &&& revive ==> revived(*old(game_state), *final(game_state))
            &&& !revive ==> *final(game_state) == *old(game_state)
        }),
{
    let player_dead = game_state.is_player_dead();
    if player_dead {
        if input.is_key_pressed(KEY_SPACE) || input.is_key_pressed(KEY_RETURN) || input.is_key_pressed(
            KEY_RETURN2,
        ) || input.is_key_pressed(KEY_KP_ENTER) {
            game_state.resurrect_player();
        }
    }
    let descend = !player_dead && input.is_key_pressed(KEY_D) && !game_state.in_dungeon;
    (player_dead, descend)
}

/// Whether the rest of a frame (see `frame_continue`) stays within `i32`:
/// the movement of a live hero (see `movement_fits`) and, on a logic tick,
/// the stairs check after walking (see `stairs_fit`).
pub open spec fn frame_fits(s: GameLoopState, input: InputSystem, g: GameState, was_dead: bool, logic_tick: bool) -> bool {
    let g1 = if !was_dead && input.pressed().contains(KEY_T) && g.in_dungeon { town_return(g) } else { g };
    let g2 = if !was_dead { movement_step(g1, input.down()) } else { g1 };
    let w = if !g2.player_dead && s.move_target is Some {
        walk_step(g2, s.move_target->0, s.move_target)
    } else {
        (g2, s.move_target)
    };
    &&& !was_dead ==> movement_fits(g1.camera, input.down())
    &&& logic_tick && !w.0.player_dead ==> stairs_fit(w.0)
}

/// What a frame of the game loop leaves its caller to do.
#[derive(Debug, Clone, Copy, PartialEq, Eq)]
pub struct FrameRequests {
    /// Save the game to slot 0 (F5).
    pub save: bool,
    /// Load the game from slot 0 (F9).
    pub load: bool,
    /// Cast a firebolt at the nearest monster (F, in a dungeon).
    pub cast_firebolt: bool,
    /// What the stairs check of the logic tick led to.
    pub stairs: StairsTransition,
    /// How many game-logic steps to run now (none outside a logic tick).
    pub logic_iterations: u16,
}

/// The rest of a frame, for a hero that was dead as it began or not
/// (`was_dead`, from `frame_begin`) and whether half a second has passed
/// (`logic_tick`): a live hero pressing T in a dungeon returns to town,
/// and moves by the keys held (see `movement_step`); on a logic tick a live
/// hero then walks one step toward the click-to-move target (see
/// `walk_step`) and has the stairs checked (see `stairs_step`), and startup
/// ends. Saving, loading, casting and the game-logic steps are asked of the
/// caller.
pub fn frame_continue(
    state: &mut GameLoopState,
    input: &InputSystem,
    game_state: &mut GameState,
    was_dead: bool,
    logic_tick: bool,
) -> (req: FrameRequests)
    requires
        frame_fits(*old(state), *input, *old(game_state), was_dead, logic_tick),
    ensures
        ({
            let g0 = *old(game_state);
            let s = *old(state);
            let p = input.pressed();
            let g1 = if !was_dead && p.contains(KEY_T) && g0.in_dungeon { town_return(g0) } else { g0 };
            let g2 = if !was_dead { movement_step(g1, input.down()) } else { g1 };
            &&& req.save == p.contains(KEY_F5)
            &&& req.load == p.contains(KEY_F9)
            &&& req.cast_firebolt == (!was_dead && p.contains(KEY_F) && g1.in_dungeon)
            &&& if !logic_tick {
                &&& *final(game_state) == g2
                &&& *final(state) == s
                &&& req.stairs == StairsTransition::Stay
                &&& req.logic_iterations == 0
            } else {
                let w = if !g2.player_dead && s.move_target is Some {
                    walk_step(g2, s.move_target->0, s.move_target)
                } else {
                    (g2, s.move_target)
                };
                let st = if !w.0.player_dead { stairs_step(w.0) } else { (StairsTransition::Stay, w.0) };
                &&& *final(game_state) == st.1
                &&& *final(state) == (GameLoopState { move_target: w.1, startup: false, ..s })
                &&& req.stairs == st.0
                &&& req.logic_iterations == (if s.startup { 60u16 } else { 3u16 })
            }
        }),
{
    if !was_dead && input.is_key_pressed(KEY_T) && game_state.in_dungeon {
        return_to_town(game_state);
    }
    let save = input.is_key_pressed(KEY_F5);
    let load = input.is_key_pressed(KEY_F9);
    let cast_firebolt = !was_dead && input.is_key_pressed(KEY_F) && game_state.in_dungeon;
    if !was_dead {
        apply_movement(game_state, input);
    }
    if !logic_tick {
        return FrameRequests { save, load, cast_firebolt, stairs: StairsTransition::Stay, logic_iterations: 0 };
    }
    if !game_state.is_player_dead() {
        if let Some(target) = state.move_target {
            tick_move_target(game_state, target, &mut state.move_target);
        }
    }
    let mut stairs = StairsTransition::Stay;
    if !game_state.is_player_dead() {
        stairs = check_stairs_transition(game_state);
    }
    let logic_iterations = game_loop_iterations(state.startup);
    state.startup = false;
    FrameRequests { save, load, cast_firebolt, stairs, logic_iterations }
}


/// The numbers the character panel shows.
#[derive(Debug, Clone, Copy, PartialEq, Eq)]
pub struct CharPanelLines {
    /// Character level.
    pub level: u8,
    /// Strength and its bonus over the base.
    pub strength: (i32, i32),
    /// Magic and its bonus over the base.
    pub magic: (i32, i32),
    /// Dexterity and its bonus over the base.
    pub dexterity: (i32, i32),
    /// Vitality and its bonus over the base.
    pub vitality: (i32, i32),
    /// Life and maximum life, in whole points (life shown no lower than 0).
    pub life: (i32, i32),
    /// Mana and maximum mana, in whole points (mana shown no lower than 0).
    pub mana: (i32, i32),
    /// Armour class.
    pub armor: i32,
    /// Item damage range.
    pub damage: (i32, i32),
    /// Experience.
    pub experience: u32,
    /// Experience still needed for the next level, none at the highest.
    pub next_level: Option<u32>,
    /// Gold.
    pub gold: i32,
}

/// A value in 1/64 units as whole points (rounding down).
pub open spec fn whole_points(v: i32) -> i32 {
    v >> 6
}

/// Whole points, shown no lower than 0.
pub open spec fn shown_points(v: i32) -> i32 {
    if (v >> 6) < 0 { 0 } else { v >> 6 }
}

/// Whether each attribute's bonus over its base fits in an `i32`.
pub open spec fn bonuses_fit(p: Player) -> bool {
    &&& i32::MIN <= p._p_strength - p._p_base_str <= i32::MAX
    &&& i32::MIN <= p._p_magic - p._p_base_mag <= i32::MAX
    &&& i32::MIN <= p._p_dexterity - p._p_base_dex <= i32::MAX
    &&& i32::MIN <= p._p_vitality - p._p_base_vit <= i32::MAX
}

/// The character panel's numbers for `player`: level, each attribute with
/// its bonus over the base, life and mana in whole points, armour, damage,
/// experience, what the next level needs, and gold.
pub fn char_panel_lines(player: &Player) -> (c: CharPanelLines)
    requires
        bonuses_fit(*player),
    ensures
        c == (CharPanelLines {
            level: player._p_level,
            strength: (player._p_strength, (player._p_strength - player._p_base_str) as i32),
            magic: (player._p_magic, (player._p_magic - player._p_base_mag) as i32),
            dexterity: (player._p_dexterity, (player._p_dexterity - player._p_base_dex) as i32),
            vitality: (player._p_vitality, (player._p_vitality - player._p_base_vit) as i32),
            life: (shown_points(player._p_hit_points), whole_points(player._p_max_hp)),
            mana: (shown_points(player._p_mana), whole_points(player._p_max_mana)),
            armor: player._p_i_ac,
            damage: (player._p_i_min_dam, player._p_i_max_dam),
            experience: player._p_experience,
            next_level: next_level_need(player._p_level, player._p_experience),
            gold: player._p_gold,
        }),
{
    let hp_cur = player._p_hit_points >> 6;
    let mp_cur = player._p_mana >> 6;
    CharPanelLines {
        level: player._p_level,
        strength: (player._p_strength, player._p_strength - player._p_base_str),
        magic: (player._p_magic, player._p_magic - player._p_base_mag),
        dexterity: (player._p_dexterity, player._p_dexterity - player._p_base_dex),
        vitality: (player._p_vitality, player._p_vitality - player._p_base_vit),
        life: (if hp_cur < 0 { 0 } else { hp_cur }, player._p_max_hp >> 6),
        mana: (if mp_cur < 0 { 0 } else { mp_cur }, player._p_max_mana >> 6),
        armor: player._p_i_ac,
        damage: (player._p_i_min_dam, player._p_i_max_dam),
        experience: player._p_experience,
        next_level: next_level_threshold(player._p_level, player._p_experience),
        gold: player._p_gold,
    }
}


/// The quests the quest log lists, with the hero level from which each
/// reads as done.
pub open spec fn quest_log_entries() -> Seq<(&'static str, u8)> {
    seq![
        ("THE BUTCHER", 4u8),
        ("POISONED WATER SUPPLY", 5u8),
        ("KING LEORIC'S CURSE", 7u8),
        ("MAGIC ROCK", 9u8),
        ("VALOR", 10u8),
        ("HALLS OF THE BLIND", 10u8),
        ("Zhar THE MAD", 11u8),
        ("BLACK MUSHROOM", 12u8),
        ("ANVIL OF FURY", 13u8),
        ("WARLORD OF BLOOD", 14u8),
        ("LACHDANAN", 15u8),
        ("ARCHBISHOP LAZARUS", 16u8),
    ]
}

/// The quest log's rows for a hero of level `level`: each quest of
/// `quest_log_entries`, in order, done once the level reaches its mark.
pub fn quest_log_lines(level: u8) -> (rows: Vec<(&'static str, bool)>)
    ensures
        rows@.len() == quest_log_entries().len(),
        forall|i: int|
            0 <= i < rows@.len() ==> #[trigger] rows@[i] == (quest_log_entries()[i].0, level >= quest_log_entries()[i].1),
{
    let quests: Vec<(&'static str, u8)> = vec![
        ("THE BUTCHER", 4u8),
        ("POISONED WATER SUPPLY", 5u8),
        ("KING LEORIC'S CURSE", 7u8),
        ("MAGIC ROCK", 9u8),
        ("VALOR", 10u8),
        ("HALLS OF THE BLIND", 10u8),
        ("Zhar THE MAD", 11u8),
        ("BLACK MUSHROOM", 12u8),
        ("ANVIL OF FURY", 13u8),
        ("WARLORD OF BLOOD", 14u8),
        ("LACHDANAN", 15u8),
        ("ARCHBISHOP LAZARUS", 16u8),
    ];
    assert(quests@ == quest_log_entries());
    let mut rows: Vec<(&'static str, bool)> = Vec::new();
    let mut i: usize = 0;
    while i < quests.len()
        invariant
            0 <= i <= quests@.len(),
            quests@ == quest_log_entries(),
            rows@.len() == i,
            forall|k: int| 0 <= k < i ==> #[trigger] rows@[k] == (quest_log_entries()[k].0, level >= quest_log_entries()[k].1),
        decreases quests@.len() - i,
    {
        let (name, thresh) = quests[i];
        rows.push((name, level >= thresh));
        i = i + 1;
    }
    rows
}


/// Whether the automap draws `(wx, wy)` as a wall: in a dungeon, a placed
/// piece that is not a listed floor tile; in town, any placed piece; else
/// nothing.
pub open spec fn automap_solid(g: GameState, wx: i32, wy: i32) -> bool {
    if g.in_dungeon {
        match g.dungeon_layout {
            Some(dl) => dl.cell(wx as int, wy as int) != 0 && !(exists|k: int|
                0 <= k < dl.floor_tiles@.len() && #[trigger] dl.floor_tiles@[k] == (wx, wy)),
            None => false,
        }
    } else {
        match g.town_layout {
            Some(tl) => tl.cell(wx as int, wy as int) != 0,
            None => false,
        }
    }
}

/// Whether the automap draws the tile `(wx, wy)` as a wall (see
/// `automap_solid`).
pub fn automap_tile_solid(game_state: &GameState, wx: i32, wy: i32) -> (b: bool)
    requires
        game_state.dungeon_layout matches Some(dl) ==> dl.wf(),
        game_state.town_layout matches Some(tl) ==> tl.wf(),
    ensures
        b == automap_solid(*game_state, wx, wy),
{
    if game_state.in_dungeon {
        match &game_state.dungeon_layout {
            Some(dl) => {
                let v = dl.get(wx, wy);
                if v == 0 {
                    return false;
                }
                let mut k: usize = 0;
                while k < dl.floor_tiles.len()
                    invariant
                        0 <= k <= dl.floor_tiles@.len(),
                        game_state.in_dungeon,
                        game_state.dungeon_layout == Some(*dl),
                        forall|j: int| 0 <= j < k ==> #[trigger] dl.floor_tiles@[j] != (wx, wy),
                    decreases dl.floor_tiles@.len() - k,
                {
                    let (fx, fy) = dl.floor_tiles[k];
                    if fx == wx && fy == wy {
                        assert(dl.floor_tiles@[k as int] == (wx, wy));
                        return false;
                    }
                    k = k + 1;
                }
                true
            },
            None => false,
        }
    } else {
        match &game_state.town_layout {
            Some(tl) => tl.get(wx, wy) != 0,
            None => false,
        }
    }
}


/// Whether `frame_fits` holds: the test to make before `frame_continue`.
pub fn frame_fits_check(
    state: &GameLoopState,
    input: &InputSystem,
    game_state: &GameState,
    was_dead: bool,
    logic_tick: bool,
) -> (r: bool)
    ensures
        r == frame_fits(*state, *input, *game_state, was_dead, logic_tick),
{
    let ghost g = *game_state;
    let ghost g1 = if !was_dead && input.pressed().contains(KEY_T) && g.in_dungeon { town_return(g) } else { g };
    let ghost g2 = if !was_dead { movement_step(g1, input.down()) } else { g1 };
    let t_ret = !was_dead && input.is_key_pressed(KEY_T) && game_state.in_dungeon;
    let cam: Camera = if t_ret {
        Camera { tile_x: 75, tile_y: 68, sub_x: 0, sub_y: 0 }
    } else {
        game_state.camera
    };
    let mut px: i32 = if t_ret { 75 } else { game_state.player.position.x };
    let mut py: i32 = if t_ret { 68 } else { game_state.player.position.y };
    let in_dungeon = if t_ret { false } else { game_state.in_dungeon };
    let up = if t_ret { None } else { game_state.dungeon_up_stairs };
    let last = if t_ret { game_state.game_tick } else { game_state.last_transition_tick };
    assert(cam == g1.camera && px == g1.player.position.x && py == g1.player.position.y);
    if !was_dead {
        let (mdx, mdy) = input.get_movement_direction();
        if !(mdx == 0 && mdy == 0) {
            let sx: i64 = cam.sub_x as i64 + ((mdy - mdx) * MOVE_SPEED_Q8) as i64;
            let sy: i64 = cam.sub_y as i64 + ((mdy + mdx) * MOVE_SPEED_Q8) as i64;
            if sx < -0x8000_0000i64 || sx > 0x7fff_ffffi64 || sy < -0x8000_0000i64 || sy > 0x7fff_ffffi64 {
                return false;
            }
            let step_x = div_i32(sx as i32, 256);
            let step_y = div_i32(sy as i32, 256);
            proof {
                lemma_trunc_div_bound(sx as int, 256, 0x8000_0000);
                lemma_trunc_div_bound(sy as int, 256, 0x8000_0000);
            }
            if step_x != 0 || step_y != 0 {
                let tx: i64 = cam.tile_x as i64 + step_x as i64;
                let ty: i64 = cam.tile_y as i64 + step_y as i64;
                if tx < -0x8000_0000i64 || tx > 0x7fff_ffffi64 || ty < -0x8000_0000i64 || ty > 0x7fff_ffffi64 {
                    return false;
                }
                px = if tx < 4 { 4 } else if tx > 107 { 107 } else { tx as i32 };
                py = if ty < 4 { 4 } else if ty > 107 { 107 } else { ty as i32 };
            }
        }
    }
    assert(movement_fits(g1.camera, input.down()) || was_dead);
    assert(px == g2.player.position.x && py == g2.player.position.y);
    if !logic_tick || game_state.player_dead {
        return true;
    }
    let ghost w = if !g2.player_dead && state.move_target is Some {
        walk_step(g2, state.move_target->0, state.move_target)
    } else {
        (g2, state.move_target)
    };
    match state.move_target {
        Some((tx, ty)) => {
            if !(px == tx && py == ty) {
                let dx: i32 = if tx > px { 1 } else if tx < px { -1 } else { 0 };
                let dy: i32 = if ty > py { 1 } else if ty < py { -1 } else { 0 };
                let nx = px + dx;
                let ny = py + dy;
                px = if nx < 4 { 4 } else if nx > 107 { 107 } else { nx };
                py = if ny < 4 { 4 } else if ny > 107 { 107 } else { ny };
            }
        },
        None => {},
    }
    assert(px == w.0.player.position.x && py == w.0.player.position.y);
    assert(w.0.dungeon_up_stairs == up && w.0.in_dungeon == in_dungeon && w.0.last_transition_tick == last
        && w.0.game_tick == game_state.game_tick && !w.0.player_dead);
    let ready = game_state.game_tick >= last && game_state.game_tick - last >= STAIRS_COOLDOWN_TICKS;
    if !ready {
        return true;
    }
    if !in_dungeon {
        diff_fits_check(px, TOWN_DOWN_STAIRS.0) && diff_fits_check(py, TOWN_DOWN_STAIRS.1)
    } else {
        match up {
            Some((sx, sy)) => diff_fits_check(px, sx) && diff_fits_check(py, sy),
            None => true,
        }
    }
}


/// Where the town's sectors go: sector 4 is drawn from (0, 0), sector 3
/// from (0, 46) below what sector 4 covers, sector 2 from (46, 0) below
/// sectors 3 and 4, sector 1 from (46, 46) below the other three; each
/// sector tile (i, j) becomes its mega-tile's 2x2 block at the sector's
/// origin plus (2i, 2j); ground (piece 426) is left where no sector lies.
pub proof fn lemma_town_sector_places(
    til: Seq<TilEntry>,
    s1: Option<&DunTemplate>,
    s2: Option<&DunTemplate>,
    s3: Option<&DunTemplate>,
    s4: Option<&DunTemplate>,
    x: int,
    y: int,
)
    ensures
        ({
            let in4 = s4 matches Some(t) && 0 <= x < 2 * t.width && 0 <= y < 2 * t.height;
            let in3 = s3 matches Some(t) && 0 <= x < 2 * t.width && 46 <= y < 46 + 2 * t.height;
            let in2 = s2 matches Some(t) && 46 <= x < 46 + 2 * t.width && 0 <= y < 2 * t.height;
            let in1 = s1 matches Some(t) && 46 <= x < 46 + 2 * t.width && 46 <= y < 46 + 2 * t.height;
            let at = town_piece(til, s1, s2, s3, s4, x, y);
            &&& in4 ==> at == micro_at(sector_mega(til, sector_tile(*s4->0, x / 2, y / 2)), x % 2, y % 2)
            &&& !in4 && in3 ==> at == micro_at(sector_mega(til, sector_tile(*s3->0, x / 2, (y - 46) / 2)), x % 2, (y - 46) % 2)
            &&& !in4 && !in3 && in2 ==> at == micro_at(sector_mega(til, sector_tile(*s2->0, (x - 46) / 2, y / 2)), (x - 46) % 2, y % 2)
            &&& !in4 && !in3 && !in2 && in1 ==> at == micro_at(
                sector_mega(til, sector_tile(*s1->0, (x - 46) / 2, (y - 46) / 2)),
                (x - 46) % 2,
                (y - 46) % 2,
            )
            &&& !in4 && !in3 && !in2 && !in1 ==> at == 426
        }),
{
}

/// A click-to-move step toward a target inside the walkable band that the
/// hero has not reached strictly lowers the hero's Chebyshev distance to
/// it, in every direction; the camera stays on the hero, and the target is
/// dropped once reached and kept otherwise.
pub proof fn lemma_walk_step_closes_in(g: GameState, target: (i32, i32), mt: Option<(i32, i32)>)
    requires
        4 <= target.0 <= 107,
        4 <= target.1 <= 107,
        !(g.player.position.x == target.0 && g.player.position.y == target.1),
    ensures
        ({
            let w = walk_step(g, target, mt);
            let p = g.player.position;
            let q = w.0.player.position;
            &&& chebyshev(q.x as int, q.y as int, target.0 as int, target.1 as int) < chebyshev(
                p.x as int,
                p.y as int,
                target.0 as int,
                target.1 as int,
            )
            &&& w.0.camera.tile_x == q.x && w.0.camera.tile_y == q.y
            &&& w.1 == (if q.x == target.0 && q.y == target.1 { None } else { mt })
        }),
{
    let p = g.player.position;
    let (tx, ty) = target;
    let nx = keep_inside(p.x + sign(tx - p.x));
    let ny = keep_inside(p.y + sign(ty - p.y));
    assert(4 <= nx <= 107 && 4 <= ny <= 107);
    assert(walk_step(g, target, mt).0.player.position.x == nx);
    assert(walk_step(g, target, mt).0.player.position.y == ny);
    assert(p.x == tx ==> nx == p.x);
    assert(p.y == ty ==> ny == p.y);
    assert(p.x != tx ==> abs_diff(nx, tx as int) < abs_diff(p.x as int, tx as int));
    assert(p.y != ty ==> abs_diff(ny, ty as int) < abs_diff(p.y as int, ty as int));
}

} // verus!
