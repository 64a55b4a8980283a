//! Dungeon levels: the background mega-tile of each level kind, the
//! micro-tile grid stamped from a generated level, and the lights and doors
//! a level's micro-tiles place.

use vstd::prelude::*;
use crate::game_state::{DungeonLayout, TownLayout, grid_cell};
use crate::game_loop::{place_mega, block_before};
use crate::levels::{MAXDUNX, MAXDUNY, DMAXX, DMAXY};
use crate::tileset::{TilEntry, micros, micro_at};
use crate::objdat::ObjectId;

verus! {

/// The background mega-tile index of each level kind, by level number
/// (entry 0 unused).
pub const DUNGEON_BG_TIL_INDEX: [usize; 5] = [0, 7, 11, 7, 29];

/// The object that the piece `pn` places on a level of kind `level`
/// (1 cathedral, 2 catacombs, 3 caves), if any.
pub open spec fn door_object(level: u8, pn: u16) -> Option<ObjectId> {
    if level == 1 {
        if pn == 269 {
            Some(ObjectId::L1Light)
        } else if pn == 43 || pn == 50 || pn == 213 {
            Some(ObjectId::L1LDoor)
        } else if pn == 45 || pn == 55 {
            Some(ObjectId::L1RDoor)
        } else {
            None
        }
    } else if level == 2 {
        if pn == 12 || pn == 540 {
            Some(ObjectId::L2LDoor)
        } else if pn == 16 || pn == 541 {
            Some(ObjectId::L2RDoor)
        } else {
            None
        }
    } else if level == 3 {
        if pn == 530 {
            Some(ObjectId::L3LDoor)
        } else if pn == 533 {
            Some(ObjectId::L3RDoor)
        } else {
            None
        }
    } else {
        None
    }
}

/// The objects placed by the first `n` micro-tiles of the grid `d`, row by
/// row, each with its position.
pub open spec fn doors_in(d: Seq<u16>, level: u8, n: int) -> Seq<(i32, i32, ObjectId)>
    decreases n,
{
    if n <= 0 {
        Seq::empty()
    } else {
        let prev = doors_in(d, level, n - 1);
        match door_object(level, d[n - 1]) {
            Some(o) => prev.push((((n - 1) % (MAXDUNX as int)) as i32, ((n - 1) / (MAXDUNX as int)) as i32, o)),
            None => prev,
        }
    }
}

/// The object that `pn` places on a level of kind `level`.
fn door_object_for(level: u8, pn: u16) -> (o: Option<ObjectId>)
    ensures
        o == door_object(level, pn),
{
    if level == 1 {
        if pn == 269 {
            Some(ObjectId::L1Light)
        } else if pn == 43 || pn == 50 || pn == 213 {
            Some(ObjectId::L1LDoor)
        } else if pn == 45 || pn == 55 {
            Some(ObjectId::L1RDoor)
        } else {
            None
        }
    } else if level == 2 {
        if pn == 12 || pn == 540 {
            Some(ObjectId::L2LDoor)
        } else if pn == 16 || pn == 541 {
            Some(ObjectId::L2RDoor)
        } else {
            None
        }
    } else if level == 3 {
        if pn == 530 {
            Some(ObjectId::L3LDoor)
        } else if pn == 533 {
            Some(ObjectId::L3RDoor)
        } else {
            None
        }
    } else {
        None
    }
}

/// The lights and doors a level's micro-tiles place, with their positions,
/// row by row: on the cathedral 269 is a light, 43, 50 and 213 left doors,
/// 45 and 55 right doors; on the catacombs 12 and 540 left doors, 16 and
/// 541 right doors; in the caves 530 a left door and 533 a right door.
pub fn scan_level_doors(level: u8, layout: &DungeonLayout) -> (objects: Vec<(i32, i32, ObjectId)>)
    requires
        layout.d_piece@.len() >= MAXDUNX * MAXDUNY,
    ensures
        objects@ == doors_in(layout.d_piece@, level, MAXDUNX * MAXDUNY),
{
    let mut objects: Vec<(i32, i32, ObjectId)> = Vec::new();
    let mut y: usize = 0;
    while y < MAXDUNY
        invariant
            layout.d_piece@.len() >= MAXDUNX * MAXDUNY,
            0 <= y <= MAXDUNY,
            objects@ == doors_in(layout.d_piece@, level, y * MAXDUNX),
        decreases MAXDUNY - y,
    {
        let mut x: usize = 0;
        while x < MAXDUNX
            invariant
                layout.d_piece@.len() >= MAXDUNX * MAXDUNY,
                0 <= y < MAXDUNY,
                0 <= x <= MAXDUNX,
                objects@ == doors_in(layout.d_piece@, level, y * MAXDUNX + x),
            decreases MAXDUNX - x,
        {
            let k = y * MAXDUNX + x;
            assert(k % 112 == x && k / 112 == y) by {
                vstd::arithmetic::div_mod::lemma_fundamental_div_mod_converse(
                    k as int,
                    112,
                    y as int,
                    x as int,
                );
            }
            let pn = layout.d_piece[k];
            match door_object_for(level, pn) {
                Some(o) => {
                    objects.push((x as i32, y as i32, o));
                },
                None => {},
            }
            x = x + 1;
        }
        y = y + 1;
    }
    objects
}

/// The number of non-zero entries of `s`.
pub open spec fn count_nonzero(s: Seq<u16>) -> nat
    decreases s.len(),
{
    if s.len() == 0 {
        0
    } else {
        count_nonzero(s.drop_last()) + if s.last() != 0 { 1nat } else { 0nat }
    }
}

/// The number of micro-tiles of a layout holding a piece.
pub fn count_filled(layout: &DungeonLayout) -> (n: usize)
    ensures
        n == count_nonzero(layout.d_piece@),
{
    let mut n: usize = 0;
    let mut i: usize = 0;
    while i < layout.d_piece.len()
        invariant
            0 <= i <= layout.d_piece@.len(),
            n == count_nonzero(layout.d_piece@.subrange(0, i as int)),
            n <= i,
        decreases layout.d_piece@.len() - i,
    {
        assert(layout.d_piece@.subrange(0, i + 1).drop_last() =~= layout.d_piece@.subrange(0, i as int));
        if layout.d_piece[i] != 0 {
            n = n + 1;
        }
        i = i + 1;
    }
    assert(layout.d_piece@.subrange(0, i as int) =~= layout.d_piece@);
    n
}

/// Every object a scan reports sits inside the scanned cells, on a
/// micro-tile holding a piece that places that very object, and the scan of
/// `n` cells reports at most `n` objects.
pub proof fn lemma_doors_sit_on_their_pieces(d: Seq<u16>, level: u8, n: int)
    requires
        0 <= n <= d.len(),
        n <= MAXDUNX * MAXDUNY,
    ensures
        doors_in(d, level, n).len() <= n,
        forall|i: int|
            0 <= i < doors_in(d, level, n).len() ==> {
                let e = #[trigger] doors_in(d, level, n)[i];
                &&& 0 <= e.0 < MAXDUNX
                &&& 0 <= e.1 < MAXDUNY
                &&& e.1 * MAXDUNX + e.0 < n
                &&& door_object(level, d[e.1 * MAXDUNX + e.0]) == Some(e.2)
            },
    decreases n,
{
    if n > 0 {
        lemma_doors_sit_on_their_pieces(d, level, n - 1);
        let k = n - 1;
        let x = k % (MAXDUNX as int);
        let y = k / (MAXDUNX as int);
        assert(0 <= x < 112 && 0 <= y < 112 && y * 112 + x == k) by {
            vstd::arithmetic::div_mod::lemma_fundamental_div_mod(k, 112);
        }
    }
}


/// The mega-tile at 0-based index `k` of the TIL table, none past it.
pub open spec fn til_mega(til: Seq<TilEntry>, k: int) -> Option<(u16, u16, u16, u16)> {
    if 0 <= k < til.len() {
        Some(micros(til[k]))
    } else {
        None
    }
}

/// The piece the background mega-tile `bg` puts at `(x, y)`: its 2x2 block
/// repeated over the grid, 0 everywhere when the table has no such mega.
pub open spec fn background_piece(til: Seq<TilEntry>, bg: int, x: int, y: int) -> u16 {
    match til_mega(til, bg) {
        Some(m) => micro_at(m, x % 2, y % 2),
        None => 0,
    }
}

/// The mega-tile of column `i`, row `j` of a generated 40x40 level (its
/// tiles held column by column): tile ids are 1-based TIL indices, 0 for
/// none.
pub open spec fn level_block_mega(til: Seq<TilEntry>, tiles: Seq<u8>, i: int, j: int) -> Option<(u16, u16, u16, u16)> {
    let id = tiles[i * 40 + j] as int;
    if id > 0 {
        til_mega(til, id - 1)
    } else {
        None
    }
}

/// Whether the 40x40 level, drawn from (16, 16), covers `(x, y)`.
pub open spec fn level_covers(x: int, y: int) -> bool {
    16 <= x < 96 && 16 <= y < 96
}

/// The piece at `(x, y)` once the level's blocks before column `i`, row `j`
/// (row by row) are drawn over the background.
pub open spec fn partly_stamped(til: Seq<TilEntry>, bg: int, tiles: Seq<u8>, i: int, j: int, x: int, y: int) -> u16 {
    if level_covers(x, y) && block_before((x - 16) / 2, (y - 16) / 2, i, j) && level_block_mega(
        til,
        tiles,
        (x - 16) / 2,
        (y - 16) / 2,
    ) is Some {
        micro_at(level_block_mega(til, tiles, (x - 16) / 2, (y - 16) / 2)->0, (x - 16) % 2, (y - 16) % 2)
    } else {
        background_piece(til, bg, x, y)
    }
}

/// The piece at `(x, y)` of a dungeon level: the 2x2 block of each tile of
/// the 40x40 level drawn from (16, 16), over the background mega-tile.
pub open spec fn dungeon_piece(til: Seq<TilEntry>, bg: int, tiles: Seq<u8>, x: int, y: int) -> u16 {
    partly_stamped(til, bg, tiles, 0, 40, x, y)
}

/// The mega-tile at 0-based index `k` of the TIL table, none past it.
fn mega_for_til_index(til: &[TilEntry], k: usize) -> (m: Option<(u16, u16, u16, u16)>)
    ensures
        m == til_mega(til@, k as int),
{
    if k < til.len() {
        let t = til[k];
        Some((t.micro1, t.micro2, t.micro3, t.micro4))
    } else {
        None
    }
}

/// A 112x112 grid holding the background mega-tile `bg` of `til`.
fn background_grid(til: &[TilEntry], bg: usize) -> (g: TownLayout)
    ensures
        g.wf(),
        g.width == MAXDUNX,
        g.height == MAXDUNY,
        g.d_piece@.len() == MAXDUNX * MAXDUNY,
        forall|x: int, y: int|
            #[trigger] g.cell(x, y) == (if 0 <= x < 112 && 0 <= y < 112 {
                background_piece(til@, bg as int, x, y)
            } else {
                0
            }),
{
    let mega = mega_for_til_index(til, bg);
    let mut d: Vec<u16> = Vec::new();
    let mut y: usize = 0;
    while y < MAXDUNY
        invariant
            0 <= y <= 112,
            mega == til_mega(til@, bg as int),
            d@.len() == y * 112,
            forall|k: int| 0 <= k < d@.len() ==> #[trigger] d@[k] == background_piece(til@, bg as int, k % 112, k / 112),
        decreases 112 - y,
    {
        let mut x: usize = 0;
        while x < MAXDUNX
            invariant
                0 <= y < 112,
                0 <= x <= 112,
                mega == til_mega(til@, bg as int),
                d@.len() == y * 112 + x,
                forall|k: int| 0 <= k < d@.len() ==> #[trigger] d@[k] == background_piece(til@, bg as int, k % 112, k / 112),
            decreases 112 - x,
        {
            let v: u16 = match mega {
                Some(m) => {
                    if y % 2 == 0 {
                        if x % 2 == 0 { m.0 } else { m.1 }
                    } else {
                        if x % 2 == 0 { m.2 } else { m.3 }
                    }
                },
                None => 0,
            };
            proof {
                let k = y * 112 + x;
                assert(k % 112 == x as int && k / 112 == y as int) by (nonlinear_arith)
                    requires
                        k == y * 112 + x,
                        0 <= x < 112,
                        0 <= y,
                ;
            }
            d.push(v);
            x = x + 1;
        }
        y = y + 1;
    }
    let g = TownLayout { d_piece: d, width: MAXDUNX, height: MAXDUNY };
    proof {
        assert forall|x: int, y: int|
            #[trigger] g.cell(x, y) == (if 0 <= x < 112 && 0 <= y < 112 {
                background_piece(til@, bg as int, x, y)
            } else {
                0
            }) by {
            if 0 <= x < 112 && 0 <= y < 112 {
                let k = y * 112 + x;
                assert(0 <= k < 112 * 112 && k % 112 == x && k / 112 == y) by (nonlinear_arith)
                    requires
                        k == y * 112 + x,
                        0 <= x < 112,
                        0 <= y < 112,
                ;
            }
        }
    }
    g
}

/// The grid of a generated 40x40 level (`tiles`, column by column, holding
/// 1-based TIL indices with 0 for none): the background mega-tile `bg`
/// everywhere, then each tile's 2x2 block drawn from (16, 16) (see
/// `dungeon_piece`); tiles without a mega-tile leave the background.
fn stamp_pieces(tiles: &[u8], til: &[TilEntry], bg: usize) -> (g: TownLayout)
    requires
        tiles@.len() == 1600,
    ensures
        g.wf(),
        g.width == MAXDUNX,
        g.height == MAXDUNY,
        g.d_piece@.len() == MAXDUNX * MAXDUNY,
        forall|x: int, y: int|
            0 <= x < 112 && 0 <= y < 112 ==> #[trigger] g.cell(x, y) == dungeon_piece(til@, bg as int, tiles@, x, y),
{
    let mut layout = background_grid(til, bg);
    let mut yy: usize = 16;
    let mut j: usize = 0;
    while j < DMAXY
        invariant
            layout.wf(),
            layout.width == 112,
            layout.height == 112,
            layout.d_piece@.len() == 112 * 112,
            tiles@.len() == 1600,
            0 <= j <= 40,
            yy == 16 + 2 * j,
            forall|x: int, y: int|
                #[trigger] layout.cell(x, y) == (if 0 <= x < 112 && 0 <= y < 112 {
                    partly_stamped(til@, bg as int, tiles@, 0, j as int, x, y)
                } else {
                    0
                }),
        decreases 40 - j,
    {
        let mut xx: usize = 16;
        let mut i: usize = 0;
        while i < DMAXX
            invariant
                layout.wf(),
                layout.width == 112,
                layout.height == 112,
                layout.d_piece@.len() == 112 * 112,
                tiles@.len() == 1600,
                0 <= j < 40,
                0 <= i <= 40,
                yy == 16 + 2 * j,
                xx == 16 + 2 * i,
                forall|x: int, y: int|
                    #[trigger] layout.cell(x, y) == (if 0 <= x < 112 && 0 <= y < 112 {
                        partly_stamped(til@, bg as int, tiles@, i as int, j as int, x, y)
                    } else {
                        0
                    }),
            decreases 40 - i,
        {
            let tile_id = tiles[i * 40 + j] as usize;
            let mega = if tile_id > 0 {
                mega_for_til_index(til, tile_id - 1)
            } else {
                None
            };
            assert(mega == level_block_mega(til@, tiles@, i as int, j as int));
            match mega {
                Some(m) => {
                    let ghost prev = layout;
                    place_mega(&mut layout, xx, yy, m);
                    proof {
                        assert forall|x: int, y: int|
                            #[trigger] layout.cell(x, y) == (if 0 <= x < 112 && 0 <= y < 112 {
                                partly_stamped(til@, bg as int, tiles@, i + 1, j as int, x, y)
                            } else {
                                0
                            }) by {
                            assert(prev.cell(x, y) == (if 0 <= x < 112 && 0 <= y < 112 {
                                partly_stamped(til@, bg as int, tiles@, i as int, j as int, x, y)
                            } else {
                                0
                            }));
                            if xx <= x <= xx + 1 && yy <= y <= yy + 1 {
                                assert((x - 16) / 2 == i && (y - 16) / 2 == j);
                                assert((x - 16) % 2 == x - xx && (y - 16) % 2 == y - yy);
                            } else if level_covers(x, y) {
                                assert(!((x - 16) / 2 == i && (y - 16) / 2 == j));
                            }
                        }
                    }
                },
                None => {
                    proof {
                        assert forall|x: int, y: int|
                            #[trigger] layout.cell(x, y) == (if 0 <= x < 112 && 0 <= y < 112 {
                                partly_stamped(til@, bg as int, tiles@, i + 1, j as int, x, y)
                            } else {
                                0
                            }) by {
                            if level_covers(x, y) && (x - 16) / 2 == i && (y - 16) / 2 == j {
                                assert(level_block_mega(til@, tiles@, (x - 16) / 2, (y - 16) / 2) is None);
                            }
                        }
                    }
                },
            }
            xx = xx + 2;
            i = i + 1;
        }
        proof {
            assert forall|x: int, y: int|
                #[trigger] layout.cell(x, y) == (if 0 <= x < 112 && 0 <= y < 112 {
                    partly_stamped(til@, bg as int, tiles@, 0, j + 1, x, y)
                } else {
                    0
                }) by {
                assert(layout.cell(x, y) == (if 0 <= x < 112 && 0 <= y < 112 {
                    partly_stamped(til@, bg as int, tiles@, 40, j as int, x, y)
                } else {
                    0
                }));
                if level_covers(x, y) {
                    assert((x - 16) / 2 < 40);
                }
            }
        }
        yy = yy + 2;
        j = j + 1;
    }
    layout
}

/// A copy of `bytes`.
fn copy_bytes(bytes: &[u8]) -> (v: Vec<u8>)
    ensures
        v@ == bytes@,
{
    let mut v: Vec<u8> = Vec::new();
    let mut i: usize = 0;
    while i < bytes.len()
        invariant
            0 <= i <= bytes@.len(),
            v@ == bytes@.subrange(0, i as int),
        decreases bytes@.len() - i,
    {
        v.push(bytes[i]);
        i = i + 1;
        assert(v@ =~= bytes@.subrange(0, i as int));
    }
    assert(v@ =~= bytes@);
    v
}

/// The micro-tile grid of a generated level: `tiles` is its 40x40 grid,
/// column by column, of 1-based TIL indices (0 for none), and `trans_val`
/// its 112x112 transparency regions, column by column. The pieces are the
/// background mega-tile `bg_til_index` of `til` with each tile's 2x2 block
/// drawn from (16, 16) (see `dungeon_piece`); the regions are copied row by
/// row; the level's solidity table `sol` is kept with the grid; every
/// micro-tile is left dark and no floor tile is listed. (The level's static
/// lights are baked by the lighting engine, not here.)
pub fn stamp_dungeon_layout(tiles: &[u8], trans_val: &[i8], til: &[TilEntry], sol: &[u8], bg_til_index: usize) -> (l: DungeonLayout)
    requires
        tiles@.len() == DMAXX * DMAXY,
        trans_val@.len() == MAXDUNX * MAXDUNY,
    ensures
        l.wf(),
        l.width == MAXDUNX,
        l.height == MAXDUNY,
        l.d_piece@.len() == MAXDUNX * MAXDUNY,
        forall|x: int, y: int|
            0 <= x < 112 && 0 <= y < 112 ==> #[trigger] l.cell(x, y) == dungeon_piece(til@, bg_til_index as int, tiles@, x, y),
        l.trans_val@.len() == MAXDUNX * MAXDUNY,
        forall|x: int, y: int|
            0 <= x < 112 && 0 <= y < 112 ==> #[trigger] l.trans_val@[y * 112 + x] == trans_val@[x * 112 + y],
        l.pre_light@.len() == MAXDUNX * MAXDUNY,
        forall|k: int| 0 <= k < l.pre_light@.len() ==> l.pre_light@[k] == 15,
        l.floor_tiles@.len() == 0,
        l.sol@ == sol@,
{
    let grid = stamp_pieces(tiles, til, bg_til_index);
    let mut tv: Vec<i8> = Vec::new();
    let mut y: usize = 0;
    while y < MAXDUNY
        invariant
            0 <= y <= 112,
            trans_val@.len() == 112 * 112,
            tv@.len() == y * 112,
            forall|k: int| 0 <= k < tv@.len() ==> #[trigger] tv@[k] == trans_val@[(k % 112) * 112 + k / 112],
        decreases 112 - y,
    {
        let mut x: usize = 0;
        while x < MAXDUNX
            invariant
                0 <= y < 112,
                0 <= x <= 112,
                trans_val@.len() == 112 * 112,
                tv@.len() == y * 112 + x,
                forall|k: int| 0 <= k < tv@.len() ==> #[trigger] tv@[k] == trans_val@[(k % 112) * 112 + k / 112],
            decreases 112 - x,
        {
            proof {
                let k = y * 112 + x;
                assert(k % 112 == x as int && k / 112 == y as int) by (nonlinear_arith)
                    requires
                        k == y * 112 + x,
                        0 <= x < 112,
                        0 <= y,
                ;
                assert(x * 112 + y < 112 * 112) by (nonlinear_arith)
                    requires
                        0 <= x < 112,
                        0 <= y < 112,
                ;
            }
            tv.push(trans_val[x * MAXDUNX + y]);
            x = x + 1;
        }
        y = y + 1;
    }
    let l = DungeonLayout {
        d_piece: grid.d_piece,
        width: MAXDUNX,
        height: MAXDUNY,
        trans_val: tv,
        pre_light: vec![15u8; MAXDUNX * MAXDUNY],
        floor_tiles: Vec::new(),
        sol: copy_bytes(sol),
    };
    proof {
        assert forall|x: int, y: int| 0 <= x < 112 && 0 <= y < 112 implies #[trigger] l.cell(x, y)
            == dungeon_piece(til@, bg_til_index as int, tiles@, x, y) by {
            assert(grid.cell(x, y) == dungeon_piece(til@, bg_til_index as int, tiles@, x, y));
        }
        assert forall|x: int, y: int| 0 <= x < 112 && 0 <= y < 112 implies #[trigger] l.trans_val@[y * 112
            + x] == trans_val@[x * 112 + y] by {
            let k = y * 112 + x;
            assert(0 <= k < 112 * 112 && k % 112 == x && k / 112 == y) by (nonlinear_arith)
                requires
                    k == y * 112 + x,
                    0 <= x < 112,
                    0 <= y < 112,
            ;
        }
    }
    l
}


/// Whether `l` is the grid `stamp_dungeon_layout` makes of `tiles` and
/// `trans_val` over the background mega-tile `bg`, keeping the solidity
/// table `sol`.
pub open spec fn stamped_from(l: DungeonLayout, tiles: Seq<u8>, trans_val: Seq<i8>, til: Seq<TilEntry>, sol: Seq<u8>, bg: int) -> bool {
    &&& l.wf()
    &&& l.width == MAXDUNX
    &&& l.height == MAXDUNY
    &&& l.d_piece@.len() == MAXDUNX * MAXDUNY
    &&& forall|x: int, y: int|
        0 <= x < 112 && 0 <= y < 112 ==> #[trigger] l.cell(x, y) == dungeon_piece(til, bg, tiles, x, y)
    &&& l.trans_val@.len() == MAXDUNX * MAXDUNY
    &&& forall|x: int, y: int|
        0 <= x < 112 && 0 <= y < 112 ==> #[trigger] l.trans_val@[y * 112 + x] == trans_val[x * 112 + y]
    &&& l.pre_light@.len() == MAXDUNX * MAXDUNY
    &&& forall|k: int| 0 <= k < l.pre_light@.len() ==> l.pre_light@[k] == 15
    &&& l.floor_tiles@.len() == 0
    &&& l.sol@ == sol
}

/// The grid of a generated catacombs level (background mega-tile 11).
pub fn build_catacombs_layout(tiles: &[u8], trans_val: &[i8], til: &[TilEntry], sol: &[u8]) -> (l: DungeonLayout)
    requires
        tiles@.len() == DMAXX * DMAXY,
        trans_val@.len() == MAXDUNX * MAXDUNY,
    ensures
        stamped_from(l, tiles@, trans_val@, til@, sol@, 11),
{
    stamp_dungeon_layout(tiles, trans_val, til, sol, DUNGEON_BG_TIL_INDEX[2])
}

/// The grid of a generated caves level (background mega-tile 7).
pub fn build_caves_layout(tiles: &[u8], trans_val: &[i8], til: &[TilEntry], sol: &[u8]) -> (l: DungeonLayout)
    requires
        tiles@.len() == DMAXX * DMAXY,
        trans_val@.len() == MAXDUNX * MAXDUNY,
    ensures
        stamped_from(l, tiles@, trans_val@, til@, sol@, 7),
{
    stamp_dungeon_layout(tiles, trans_val, til, sol, DUNGEON_BG_TIL_INDEX[3])
}

/// The grid of a generated hell level (background mega-tile 29).
pub fn build_hell_layout(tiles: &[u8], trans_val: &[i8], til: &[TilEntry], sol: &[u8]) -> (l: DungeonLayout)
    requires
        tiles@.len() == DMAXX * DMAXY,
        trans_val@.len() == MAXDUNX * MAXDUNY,
    ensures
        stamped_from(l, tiles@, trans_val@, til@, sol@, 29),
{
    stamp_dungeon_layout(tiles, trans_val, til, sol, DUNGEON_BG_TIL_INDEX[4])
}


/// Each tile of a generated level with a mega-tile is drawn as that
/// mega-tile's 2x2 block at (16 + 2i, 16 + 2j); a tile without one leaves
/// the background there.
pub proof fn lemma_level_tile_block(til: Seq<TilEntry>, bg: int, tiles: Seq<u8>, i: int, j: int, dx: int, dy: int)
    requires
        0 <= i < 40,
        0 <= j < 40,
        0 <= dx <= 1,
        0 <= dy <= 1,
    ensures
        ({
            let x = 16 + 2 * i + dx;
            let y = 16 + 2 * j + dy;
            dungeon_piece(til, bg, tiles, x, y) == match level_block_mega(til, tiles, i, j) {
                Some(m) => micro_at(m, dx, dy),
                None => background_piece(til, bg, x, y),
            }
        }),
{
    let x = 16 + 2 * i + dx;
    let y = 16 + 2 * j + dy;
    assert((x - 16) / 2 == i && (x - 16) % 2 == dx);
    assert((y - 16) / 2 == j && (y - 16) % 2 == dy);
}

} // verus!
