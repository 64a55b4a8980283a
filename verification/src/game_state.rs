//! The game's world state and its rules: the town and dungeon micro-tile
//! grids, the camera, loot and its pickup, missiles, the stairs cooldown,
//! death and resurrection, level-up, the town dwellers' shops, the starter
//! weapon, and doors.

use vstd::prelude::*;
use crate::levels::{MAXDUNX, MAXDUNY};
use crate::player::{Player, PlayerItem};
use crate::types::Point;
use crate::objdat::ObjectId;
use crate::objects::{Object, DoorState, door_kind};
use crate::numeric::{div_i32, trunc_div};

verus! {

/// Width of the town's micro-tile grid.
pub const TOWN_MAX_X: usize = 112;

/// Height of the town's micro-tile grid.
pub const TOWN_MAX_Y: usize = 112;

/// Number of levels: the town and the sixteen dungeon levels.
pub const NUM_LEVELS: usize = 17;

/// The tile of the stairs from the town down to the cathedral.
pub const TOWN_DOWN_STAIRS: (i32, i32) = (25, 29);

/// How far from a stair tile (Chebyshev distance) the player triggers it.
pub const STAIRS_TRIGGER_RADIUS: i32 = 1;

/// Game ticks that must pass between two automatic stair transitions.
pub const STAIRS_COOLDOWN_TICKS: u32 = 4;

/// The camera, in world tile coordinates, with a sub-tile accumulator.
#[derive(Debug, Clone, Copy, Default)]
pub struct Camera {
    /// World tile x the view is centred on.
    pub tile_x: i32,
    /// World tile y the view is centred on.
    pub tile_y: i32,
    /// Sub-tile movement along x, in 1/256 of a tile.
    pub sub_x: i32,
    /// Sub-tile movement along y, in 1/256 of a tile.
    pub sub_y: i32,
}

/// The cell `(x, y)` of a row-major grid `d` of width `w` and height `h`,
/// 0 outside the grid.
pub open spec fn grid_cell(d: Seq<u16>, w: int, h: int, x: int, y: int) -> u16 {
    if 0 <= x < w && 0 <= y < h {
        d[y * w + x]
    } else {
        0
    }
}

/// The grid `d` with the cell `(x, y)` set to `v`, unchanged when `(x, y)`
/// lies outside the grid.
pub open spec fn grid_with(d: Seq<u16>, w: int, h: int, x: int, y: int, v: u16) -> Seq<u16> {
    if 0 <= x < w && 0 <= y < h {
        d.update(y * w + x, v)
    } else {
        d
    }
}

/// Inside a `w` by `h` grid, the row-major index of a cell lies below `w * h`.
proof fn lemma_cell_index_in_grid(w: int, h: int, x: int, y: int)
    requires
        0 <= x < w,
        0 <= y < h,
    ensures
        0 <= y * w + x < w * h,
{
    assert(0 <= y * w + x < w * h) by (nonlinear_arith)
        requires
            0 <= x < w,
            0 <= y < h,
    ;
}

/// Two cells of a grid of width `w` have the same row-major index only when
/// they are the same cell.
proof fn lemma_cell_index_injective(w: int, x1: int, y1: int, x2: int, y2: int)
    requires
        0 <= x1 < w,
        0 <= x2 < w,
        0 <= y1,
        0 <= y2,
        y1 * w + x1 == y2 * w + x2,
    ensures
        x1 == x2,
        y1 == y2,
{
    if y1 < y2 {
        assert(y1 * w + x1 < y2 * w + x2) by (nonlinear_arith)
            requires
                0 <= x1 < w,
                0 <= x2,
                0 <= y1 < y2,
        ;
    } else if y2 < y1 {
        assert(y2 * w + x2 < y1 * w + x1) by (nonlinear_arith)
            requires
                0 <= x2 < w,
                0 <= x1,
                0 <= y2 < y1,
        ;
    }
}

/// Reading a cell after setting one: the value set where the cells agree and
/// the cell lies inside the grid, otherwise the value before.
pub proof fn lemma_grid_set_then_get(
    d: Seq<u16>,
    w: int,
    h: int,
    x: int,
    y: int,
    v: u16,
    x2: int,
    y2: int,
)
    requires
        0 <= w,
        0 <= h,
        w * h <= d.len(),
    ensures
        grid_cell(grid_with(d, w, h, x, y, v), w, h, x2, y2) == (if x == x2 && y == y2 && 0 <= x
            < w && 0 <= y < h {
            v
        } else {
            grid_cell(d, w, h, x2, y2)
        }),
        grid_with(d, w, h, x, y, v).len() == d.len(),
{
    if 0 <= x < w && 0 <= y < h {
        lemma_cell_index_in_grid(w, h, x, y);
        if 0 <= x2 < w && 0 <= y2 < h {
            lemma_cell_index_in_grid(w, h, x2, y2);
            if y * w + x == y2 * w + x2 {
                lemma_cell_index_injective(w, x, y, x2, y2);
            }
        }
    }
}

/// The town's micro-tile grid, row-major: the piece of each micro-tile.
#[derive(Debug, Clone)]
pub struct TownLayout {
    /// The pieces, row by row.
    pub d_piece: Vec<u16>,
    /// Grid width.
    pub width: usize,
    /// Grid height.
    pub height: usize,
}

impl Default for TownLayout {
    /// A 112x112 grid of zeros.
    fn default() -> (l: Self)
        ensures
            l.width == TOWN_MAX_X,
            l.height == TOWN_MAX_Y,
            l.d_piece@.len() == TOWN_MAX_X * TOWN_MAX_Y,
            forall|i: int| 0 <= i < l.d_piece@.len() ==> l.d_piece@[i] == 0,
    {
        TownLayout { d_piece: vec![0u16; TOWN_MAX_X * TOWN_MAX_Y], width: TOWN_MAX_X, height: TOWN_MAX_Y }
    }
}

impl TownLayout {
    /// The grid holds at least `width * height` pieces.
    pub open spec fn wf(&self) -> bool {
        self.width * self.height <= self.d_piece@.len()
    }

    /// The piece at `(x, y)`, 0 outside the grid.
    pub open spec fn cell(&self, x: int, y: int) -> u16 {
        grid_cell(self.d_piece@, self.width as int, self.height as int, x, y)
    }

    /// The piece at world tile `(x, y)`; 0 outside the grid.
    pub fn get(&self, x: i32, y: i32) -> (p: u16)
        requires
            self.wf(),
        ensures
            p == self.cell(x as int, y as int),
    {
        if x < 0 || y < 0 {
            return 0;
        }
        let xu = x as usize;
        let yu = y as usize;
        if xu >= self.width || yu >= self.height {
            return 0;
        }
        let len = self.d_piece.len();
        proof {
            lemma_cell_index_in_grid(self.width as int, self.height as int, xu as int, yu as int);
            assert(yu * self.width <= yu * self.width + xu < len);
        }
        self.d_piece[yu * self.width + xu]
    }

    /// Sets the piece at world tile `(x, y)`; nothing happens outside the
    /// grid.
    pub fn set(&mut self, x: i32, y: i32, value: u16)
        requires
            old(self).wf(),
        ensures
            final(self).width == old(self).width,
            final(self).height == old(self).height,
            final(self).d_piece@.len() == old(self).d_piece@.len(),
            final(self).d_piece@ == grid_with(
                old(self).d_piece@,
                old(self).width as int,
                old(self).height as int,
                x as int,
                y as int,
                value,
            ),
            final(self).wf(),
    {
        if x < 0 || y < 0 {
            return;
        }
        let xu = x as usize;
        let yu = y as usize;
        if xu < self.width && yu < self.height {
            let len = self.d_piece.len();
            proof {
                lemma_cell_index_in_grid(self.width as int, self.height as int, xu as int, yu as int);
                assert(yu * self.width <= yu * self.width + xu < len);
            }
            self.d_piece.set(yu * self.width + xu, value);
        }
    }
}

/// Steps of one round of game logic.
#[derive(Debug, Clone, Copy, PartialEq, Eq, Structural)]
pub enum GameLogicStep {
    /// No step runs.
    Nothing,
    /// Players are processed.
    ProcessPlayers,
    /// Monsters are processed.
    ProcessMonsters,
    /// Objects are processed.
    ProcessObjects,
    /// Missiles are processed.
    ProcessMissiles,
    /// Items are processed.
    ProcessItems,
    /// Towners are processed.
    ProcessTowners,
    /// Town items are processed.
    ProcessItemsTown,
    /// Town missiles are processed.
    ProcessMissilesTown,
}

impl Default for GameLogicStep {
    /// No step.
    fn default() -> (s: Self)
        ensures
            s == GameLogicStep::Nothing,
    {
        GameLogicStep::Nothing
    }
}

/// A missile cast by the player, moving one tile per tick.
#[derive(Debug, Clone, Copy)]
pub struct SimpleMissile {
    /// World tile x.
    pub x: i32,
    /// World tile y.
    pub y: i32,
    /// Movement per tick along x.
    pub dx: i32,
    /// Movement per tick along y.
    pub dy: i32,
    /// Damage dealt on hit.
    pub damage: i32,
    /// Tiles left before the missile fizzles.
    pub range_left: i32,
}

/// Kinds of loot lying on the ground.
#[derive(Debug, Clone, Copy, PartialEq, Eq, Structural)]
pub enum GroundItemType {
    /// Gold.
    Gold,
    /// A healing potion.
    HealingPotion,
    /// A mana potion.
    ManaPotion,
}

impl GroundItemType {
    /// Gold granted by picking up a gold pile.
    pub const GOLD_AMOUNT: i32 = 50;

    /// The name shown for this kind of loot.
    pub open spec fn name_spec(self) -> Seq<char> {
        match self {
            GroundItemType::Gold => "Gold"@,
            GroundItemType::HealingPotion => "Potion of Healing"@,
            GroundItemType::ManaPotion => "Potion of Mana"@,
        }
    }

    /// The name shown for this kind of loot.
    pub fn display_name(self) -> (name: &'static str)
        ensures
            name@ == self.name_spec(),
    {
        proof {
            reveal_strlit("Gold");
            reveal_strlit("Potion of Healing");
            reveal_strlit("Potion of Mana");
        }
        match self {
            GroundItemType::Gold => "Gold",
            GroundItemType::HealingPotion => "Potion of Healing",
            GroundItemType::ManaPotion => "Potion of Mana",
        }
    }
}

/// An item lying on the floor, at a world tile.
#[derive(Debug, Clone)]
pub struct GroundItem {
    /// World tile x.
    pub x: i32,
    /// World tile y.
    pub y: i32,
    /// The kind of loot.
    pub item_type: GroundItemType,
    /// The row of the item table for a generated item, none for gold and
    /// the plain potions.
    pub item_index: Option<usize>,
}

/// A dungeon level's micro-tile grid, row-major, with its transparency
/// regions, its baked light and its walkable floor tiles.
#[derive(Debug, Clone)]
pub struct DungeonLayout {
    /// The pieces, row by row.
    pub d_piece: Vec<u16>,
    /// Grid width.
    pub width: usize,
    /// Grid height.
    pub height: usize,
    /// Transparency region of each micro-tile, 0 for opaque.
    pub trans_val: Vec<i8>,
    /// Baked light of each micro-tile, 0 lit to 15 dark.
    pub pre_light: Vec<u8>,
    /// Walkable floor micro-tiles.
    pub floor_tiles: Vec<(i32, i32)>,
    /// The level's solidity table: the properties of each piece.
    pub sol: Vec<u8>,
}

impl Default for DungeonLayout {
    /// A 112x112 grid of zeros, opaque and dark, with no floor tiles and an
    /// empty solidity table.
    fn default() -> (l: Self)
        ensures
            l.width == MAXDUNX,
            l.height == MAXDUNY,
            l.d_piece@.len() == MAXDUNX * MAXDUNY,
            forall|i: int| 0 <= i < l.d_piece@.len() ==> l.d_piece@[i] == 0,
            l.trans_val@.len() == MAXDUNX * MAXDUNY,
            forall|i: int| 0 <= i < l.trans_val@.len() ==> l.trans_val@[i] == 0,
            l.pre_light@.len() == MAXDUNX * MAXDUNY,
            forall|i: int| 0 <= i < l.pre_light@.len() ==> l.pre_light@[i] == 15,
            l.floor_tiles@.len() == 0,
            l.sol@.len() == 0,
    {
        DungeonLayout {
            d_piece: vec![0u16; MAXDUNX * MAXDUNY],
            width: MAXDUNX,
            height: MAXDUNY,
            trans_val: vec![0i8; MAXDUNX * MAXDUNY],
            pre_light: vec![15u8; MAXDUNX * MAXDUNY],
            floor_tiles: Vec::new(),
            sol: Vec::new(),
        }
    }
}

impl DungeonLayout {
    /// The grid holds at least `width * height` pieces.
    pub open spec fn wf(&self) -> bool {
        self.width * self.height <= self.d_piece@.len()
    }

    /// The piece at `(x, y)`, 0 outside the grid.
    pub open spec fn cell(&self, x: int, y: int) -> u16 {
        grid_cell(self.d_piece@, self.width as int, self.height as int, x, y)
    }

    /// The piece at micro-tile `(x, y)`; 0 outside the grid.
    pub fn get(&self, x: i32, y: i32) -> (p: u16)
        requires
            self.wf(),
        ensures
            p == self.cell(x as int, y as int),
    {
        if x < 0 || y < 0 {
            return 0;
        }
        let xu = x as usize;
        let yu = y as usize;
        if xu >= self.width || yu >= self.height {
            return 0;
        }
        let len = self.d_piece.len();
        proof {
            lemma_cell_index_in_grid(self.width as int, self.height as int, xu as int, yu as int);
            assert(yu * self.width <= yu * self.width + xu < len);
        }
        self.d_piece[yu * self.width + xu]
    }
}

impl DungeonLayout {
    /// Sets the piece at micro-tile `(x, y)`; nothing happens outside the
    /// grid.
    pub fn set(&mut self, x: i32, y: i32, value: u16)
        requires
            old(self).wf(),
        ensures
            *final(self) == (DungeonLayout { d_piece: final(self).d_piece, ..*old(self) }),
            final(self).d_piece@ == grid_with(
                old(self).d_piece@,
                old(self).width as int,
                old(self).height as int,
                x as int,
                y as int,
                value,
            ),
    {
        if x < 0 || y < 0 {
            return;
        }
        let xu = x as usize;
        let yu = y as usize;
        if xu < self.width && yu < self.height {
            let len = self.d_piece.len();
            proof {
                lemma_cell_index_in_grid(self.width as int, self.height as int, xu as int, yu as int);
                assert(yu * self.width <= yu * self.width + xu < len);
            }
            self.d_piece.set(yu * self.width + xu, value);
        }
    }
}

/// A town dweller: world tile, name and kind.
pub type Towner = (i32, i32, &'static str, u8);

/// The game's world state: the hero, the level shown, the camera, the loot
/// and missiles in play, the town dwellers, the stairs cooldown, pending
/// sounds, death and the open shop.
pub struct GameState {
    /// The hero.
    pub player: Player,
    /// Missiles cast by the hero.
    pub simple_missiles: Vec<SimpleMissile>,
    /// Loot lying on the floor.
    pub ground_items: Vec<GroundItem>,
    /// The step of game logic running.
    pub logic_step: GameLogicStep,
    /// Game ticks so far.
    pub game_tick: u32,
    /// Whether the level is the town.
    pub is_town: bool,
    /// The town grid, once built.
    pub town_layout: Option<TownLayout>,
    /// The camera.
    pub camera: Camera,
    /// Whether a dungeon level is shown.
    pub in_dungeon: bool,
    /// The dungeon grid, while in a dungeon.
    pub dungeon_layout: Option<DungeonLayout>,
    /// The tile of the dungeon's up stairs, when found.
    pub dungeon_up_stairs: Option<(i32, i32)>,
    /// The tick of the last automatic stair transition.
    pub last_transition_tick: u32,
    /// The dungeon level shown (1 to 4), 0 in town.
    pub current_dungeon_level: u8,
    /// Sounds asked for by the game logic, oldest first.
    pub pending_sfx: Vec<String>,
    /// The town dwellers.
    pub towners: Vec<Towner>,
    /// Whether the hero is dead.
    pub player_dead: bool,
    /// Whether the shop panel is open.
    pub shop_open: bool,
    /// The kind of dweller whose shop is open.
    pub active_shop_npc: Option<u8>,
    /// The objects of the level shown.
    pub objects: Vec<Object>,
    /// A spell another player cast: target tile and spell number.
    pub pending_spell: Option<(i32, i32, i32)>,
}

/// The town spawn point.
pub const TOWN_SPAWN: (i32, i32) = (75, 68);

/// `|a - b|`.
pub open spec fn abs_diff(a: int, b: int) -> int {
    if a >= b { a - b } else { b - a }
}

/// The Chebyshev distance between `(ax, ay)` and `(bx, by)`.
pub open spec fn chebyshev(ax: int, ay: int, bx: int, by: int) -> int {
    let dx = abs_diff(ax, bx);
    let dy = abs_diff(ay, by);
    if dx >= dy { dx } else { dy }
}

/// Whether `|a - b|` fits in an `i32`.
pub open spec fn diff_fits(a: i32, b: i32) -> bool {
    i32::MIN < a - b <= i32::MAX
}

/// The Chebyshev distance of two tiles, given its coordinate differences fit.
fn chebyshev_i32(ax: i32, ay: i32, bx: i32, by: i32) -> (d: i32)
    requires
        diff_fits(ax, bx),
        diff_fits(ay, by),
    ensures
        d == chebyshev(ax as int, ay as int, bx as int, by as int),
{
    let dx = if ax >= bx { ax - bx } else { bx - ax };
    let dy = if ay >= by { ay - by } else { by - ay };
    if dx >= dy { dx } else { dy }
}

impl GameState {
    /// How far a click may land from a dweller and still reach them.
    pub const SHOP_CLICK_RADIUS: i32 = 2;

    /// A fresh state for `player` with the town dwellers `towners`: nothing
    /// on the floor, no missiles, tick 0, camera at the origin, not in a
    /// dungeon, no layouts, no pending sounds, alive, shop closed.
    pub fn new(player: Player, is_town: bool, towners: Vec<Towner>) -> (gs: Self)
        ensures
            gs.player == player,
            gs.simple_missiles@.len() == 0,
            gs.ground_items@.len() == 0,
            gs.logic_step == GameLogicStep::Nothing,
            gs.game_tick == 0,
            gs.is_town == is_town,
            gs.town_layout is None,
            gs.camera == (Camera { tile_x: 0, tile_y: 0, sub_x: 0, sub_y: 0 }),
            !gs.in_dungeon,
            gs.dungeon_layout is None,
            gs.dungeon_up_stairs is None,
            gs.last_transition_tick == 0,
            gs.current_dungeon_level == 0,
            gs.pending_sfx@.len() == 0,
            gs.objects@.len() == 0,
            gs.pending_spell is None,
            gs.towners == towners,
            !gs.player_dead,
            !gs.shop_open,
            gs.active_shop_npc is None,
    {
        GameState {
            player,
            simple_missiles: Vec::new(),
            ground_items: Vec::new(),
            logic_step: GameLogicStep::Nothing,
            game_tick: 0,
            is_town,
            town_layout: None,
            camera: Camera { tile_x: 0, tile_y: 0, sub_x: 0, sub_y: 0 },
            in_dungeon: false,
            dungeon_layout: None,
            dungeon_up_stairs: None,
            last_transition_tick: 0,
            current_dungeon_level: 0,
            pending_sfx: Vec::new(),
            objects: Vec::new(),
            pending_spell: None,
            towners,
            player_dead: false,
            shop_open: false,
            active_shop_npc: None,
        }
    }

    /// The hero.
    pub fn player(&self) -> (p: &Player)
        ensures
            *p == self.player,
    {
        &self.player
    }

    /// The hero, to change.
    pub fn player_mut(&mut self) -> (p: &mut Player)
        ensures
            *p == old(self).player,
            *final(self) == (GameState { player: *final(p), ..*old(self) }),
    {
        &mut self.player
    }

    /// Puts the camera and the hero on the town spawn (75, 68).
    pub fn init_town_camera(&mut self)
        ensures
            *final(self) == (GameState {
                camera: Camera { tile_x: 75, tile_y: 68, sub_x: 0, sub_y: 0 },
                player: Player { position: Point { x: 75, y: 68 }, ..old(self).player },
                ..*old(self)
            }),
    {
        self.camera = Camera { tile_x: 75, tile_y: 68, sub_x: 0, sub_y: 0 };
        self.player.position = Point::new(75, 68);
    }

    /// Whether the stairs cooldown is over: at least `STAIRS_COOLDOWN_TICKS`
    /// ticks since the last transition (none counted when the clock is
    /// behind it).
    pub fn stairs_cooldown_ready(&self) -> (b: bool)
        ensures
            b == cooldown_ready(self.game_tick, self.last_transition_tick),
    {
        self.game_tick.saturating_sub(self.last_transition_tick) >= STAIRS_COOLDOWN_TICKS
    }

    /// Starts the stairs cooldown now.
    pub fn mark_stair_transition(&mut self)
        ensures
            *final(self) == (GameState { last_transition_tick: old(self).game_tick, ..*old(self) }),
    {
        self.last_transition_tick = self.game_tick;
    }

    /// The Chebyshev distance from the hero to `(tx, ty)`.
    pub fn player_tile_distance_to(&self, tx: i32, ty: i32) -> (d: i32)
        requires
            diff_fits(self.player.position.x, tx),
            diff_fits(self.player.position.y, ty),
        ensures
            d == chebyshev(
                self.player.position.x as int,
                self.player.position.y as int,
                tx as int,
                ty as int,
            ),
    {
        chebyshev_i32(self.player.position.x, self.player.position.y, tx, ty)
    }

    /// Whether the dweller kind `kind` runs a shop: the smith (0), the
    /// healer (1), the witch (6) and the boy (8).
    pub fn npc_runs_shop(kind: u8) -> (b: bool)
        ensures
            b == (kind == 0 || kind == 1 || kind == 6 || kind == 8),
    {
        kind == 0 || kind == 1 || kind == 6 || kind == 8
    }

    /// Whether the hero is dead.
    pub fn is_player_dead(&self) -> (b: bool)
        ensures
            b == self.player_dead,
    {
        self.player_dead
    }

    /// Queues the sound `name`.
    pub fn queue_sfx(&mut self, name: &str)
        ensures
            final(self).pending_sfx@.len() == old(self).pending_sfx@.len() + 1,
            forall|i: int| 0 <= i < old(self).pending_sfx@.len() ==> final(self).pending_sfx@[i] == old(self).pending_sfx@[i],
            final(self).pending_sfx@.last()@ == name@,
            *final(self) == (GameState { pending_sfx: final(self).pending_sfx, ..*old(self) }),
    {
        self.pending_sfx.push(name.to_owned());
    }

    /// Takes every queued sound, oldest first, leaving none queued.
    pub fn drain_pending_sfx(&mut self) -> (sounds: Vec<String>)
        ensures
            sounds@ == old(self).pending_sfx@,
            *final(self) == (GameState { pending_sfx: final(self).pending_sfx, ..*old(self) }),
            final(self).pending_sfx@.len() == 0,
    {
        let mut sounds: Vec<String> = Vec::new();
        std::mem::swap(&mut sounds, &mut self.pending_sfx);
        sounds
    }
}

/// The goods and prices of the shop of dweller kind `npc`: the smith's
/// weapons and armour, the healer's potions, the witch's magic and the
/// boy's one item; nothing for another kind or no shop.
pub open spec fn shop_catalog(npc: Option<u8>) -> Seq<(&'static str, i32)> {
    match npc {
        Some(k) => if k == 0 {
            seq![
                ("Short Sword (1-6 dmg)", 120i32),
                ("Buckler (AC 5)", 60i32),
                ("Club (1-3 dmg)", 20i32),
                ("Chain Mail (AC 12)", 240i32),
            ]
        } else if k == 1 {
            seq![("Potion of Healing", 50i32), ("Potion of Full Healing", 150i32), ("Potion of Mana", 50i32)]
        } else if k == 6 {
            seq![
                ("Scroll of Firebolt", 100i32),
                ("Scroll of Healing", 100i32),
                ("Staff of Firebolt", 400i32),
                ("Book of Firebolt", 1200i32),
            ]
        } else if k == 8 {
            seq![("Wirt's Premium Item", 1000i32)]
        } else {
            Seq::empty()
        },
        None => Seq::empty(),
    }
}

/// What buying the good at `index` of the open shop answers, and the state
/// it leaves: an error and the state unchanged when no shop is open, the
/// index is past the goods or the hero's gold falls short of the price;
/// else the good, and the hero poorer by its price.
pub open spec fn buy_outcome(g: GameState, index: int) -> (Result<(&'static str, i32), &'static str>, GameState) {
    let goods = shop_catalog(g.active_shop_npc);
    if !g.shop_open {
        (Err("no shop open"), g)
    } else if index < 0 || index >= goods.len() {
        (Err("item out of range"), g)
    } else if g.player._p_gold < goods[index].1 {
        (Err("not enough gold"), g)
    } else {
        (
            Ok(goods[index]),
            GameState { player: Player { _p_gold: (g.player._p_gold - goods[index].1) as i32, ..g.player }, ..g },
        )
    }
}

/// Whether `t` is the dweller of `towners` a click on `(tx, ty)` reaches:
/// within the click radius, strictly nearer than every one listed before
/// it and no farther than every one listed after.
pub open spec fn nearest_towner(towners: Seq<Towner>, tx: i32, ty: i32, t: Towner) -> bool {
    exists|k: int|
        #![trigger towners[k]]
        0 <= k < towners.len() && towners[k] == t && in_click_range(t, tx, ty)
            && (forall|i: int| 0 <= i < k ==> towner_dist(#[trigger] towners[i], tx, ty) > towner_dist(t, tx, ty))
            && (forall|i: int| k < i < towners.len() ==> towner_dist(#[trigger] towners[i], tx, ty) >= towner_dist(t, tx, ty))
}

/// Whether no dweller of `towners` is within the click radius of `(tx, ty)`.
pub open spec fn no_towner_near(towners: Seq<Towner>, tx: i32, ty: i32) -> bool {
    forall|i: int| 0 <= i < towners.len() ==> !in_click_range(#[trigger] towners[i], tx, ty)
}

/// The shop header of dweller kind `kind`.
pub open spec fn shop_name_spec(kind: u8) -> &'static str {
    if kind == 0 {
        "GRISWOLD THE BLACKSMITH"
    } else if kind == 1 {
        "PEPIN THE HEALER"
    } else if kind == 6 {
        "ADRIA THE WITCH"
    } else if kind == 8 {
        "WIRT THE PEG-LEGGED BOY"
    } else {
        "NPC"
    }
}

/// Whether the dweller `t` stands within the click radius of `(tx, ty)`.
pub open spec fn in_click_range(t: Towner, tx: i32, ty: i32) -> bool {
    chebyshev(t.0 as int, t.1 as int, tx as int, ty as int) <= GameState::SHOP_CLICK_RADIUS
}

/// The distance from dweller `t` to `(tx, ty)`.
pub open spec fn towner_dist(t: Towner, tx: i32, ty: i32) -> int {
    chebyshev(t.0 as int, t.1 as int, tx as int, ty as int)
}

impl GameState {
    /// The shop header of dweller kind `kind`: the four shopkeepers' names,
    /// "NPC" for the others.
    pub fn shop_name_for_npc(kind: u8) -> (name: &'static str)
        ensures
            name == shop_name_spec(kind),
    {
        match kind {
            0 => "GRISWOLD THE BLACKSMITH",
            1 => "PEPIN THE HEALER",
            6 => "ADRIA THE WITCH",
            8 => "WIRT THE PEG-LEGGED BOY",
            _ => "NPC",
        }
    }

    /// Opens the shop panel of dweller kind `kind`.
    pub fn open_shop(&mut self, kind: u8)
        ensures
            *final(self) == (GameState { shop_open: true, active_shop_npc: Some(kind), ..*old(self) }),
    {
        self.shop_open = true;
        self.active_shop_npc = Some(kind);
    }

    /// Closes the shop panel.
    pub fn close_shop(&mut self)
        ensures
            *final(self) == (GameState { shop_open: false, active_shop_npc: None, ..*old(self) }),
    {
        self.shop_open = false;
        self.active_shop_npc = None;
    }

    /// The goods of the open shop (see `shop_catalog`).
    pub fn active_shop_inventory(&self) -> (goods: Vec<(&'static str, i32)>)
        ensures
            goods@ == shop_catalog(self.active_shop_npc),
    {
        let goods = match self.active_shop_npc {
            Some(0) => vec![
                ("Short Sword (1-6 dmg)", 120i32),
                ("Buckler (AC 5)", 60i32),
                ("Club (1-3 dmg)", 20i32),
                ("Chain Mail (AC 12)", 240i32),
            ],
            Some(1) => vec![
                ("Potion of Healing", 50i32),
                ("Potion of Full Healing", 150i32),
                ("Potion of Mana", 50i32),
            ],
            Some(6) => vec![
                ("Scroll of Firebolt", 100i32),
                ("Scroll of Healing", 100i32),
                ("Staff of Firebolt", 400i32),
                ("Book of Firebolt", 1200i32),
            ],
            Some(8) => vec![("Wirt's Premium Item", 1000i32)],
            _ => Vec::new(),
        };
        assert(goods@ =~= shop_catalog(self.active_shop_npc));
        goods
    }

    /// Buys the good at `index` of the open shop: fails with "no shop open",
    /// "item out of range" or "not enough gold", changing nothing; else
    /// pays its price and returns it (see `buy_outcome`).
    pub fn buy_shop_item(&mut self, index: usize) -> (r: Result<(&'static str, i32), &'static str>)
        ensures
            (r, *final(self)) == buy_outcome(*old(self), index as int),
    {
        if !self.shop_open {
            return Err("no shop open");
        }
        let inv = self.active_shop_inventory();
        if index >= inv.len() {
            return Err("item out of range");
        }
        let (name, price) = inv[index];
        if self.player._p_gold < price {
            return Err("not enough gold");
        }
        self.player._p_gold = self.player._p_gold - price;
        Ok((name, price))
    }

    /// The dweller nearest `(tx, ty)` within the click radius, the first
    /// listed among equally near ones; none when no dweller is that close.
    pub fn npc_at_tile(&self, tx: i32, ty: i32) -> (r: Option<Towner>)
        requires
            forall|i: int|
                0 <= i < self.towners@.len() ==> diff_fits(#[trigger] self.towners@[i].0, tx)
                    && diff_fits(self.towners@[i].1, ty),
        ensures
            match r {
                Some(t) => nearest_towner(self.towners@, tx, ty, t),
                None => no_towner_near(self.towners@, tx, ty),
            },
    {
        let mut best: Option<Towner> = None;
        let mut best_dist: i32 = i32::MAX;
        let ghost mut best_k: int = 0;
        let mut i: usize = 0;
        while i < self.towners.len()
            invariant
                0 <= i <= self.towners@.len(),
                forall|j: int|
                    0 <= j < self.towners@.len() ==> diff_fits(#[trigger] self.towners@[j].0, tx)
                        && diff_fits(self.towners@[j].1, ty),
                best is None ==> best_dist == i32::MAX && forall|j: int| 0 <= j < i ==> !in_click_range(#[trigger] self.towners@[j], tx, ty),
                best matches Some(t) ==> {
                    &&& 0 <= best_k < i
                    &&& self.towners@[best_k] == t
                    &&& in_click_range(t, tx, ty)
                    &&& best_dist == towner_dist(t, tx, ty)
                    &&& forall|j: int| 0 <= j < best_k ==> towner_dist(#[trigger] self.towners@[j], tx, ty) > best_dist
                    &&& forall|j: int| best_k < j < i ==> towner_dist(#[trigger] self.towners@[j], tx, ty) >= best_dist
                },
            decreases self.towners@.len() - i,
        {
            let (nx, ny, name, kind) = self.towners[i];
            let dist = chebyshev_i32(nx, ny, tx, ty);
            if dist <= Self::SHOP_CLICK_RADIUS && dist < best_dist {
                proof {
                    best_k = i as int;
                }
                best_dist = dist;
                best = Some((nx, ny, name, kind));
            }
            i = i + 1;
        }
        proof {
            if best is Some {
                assert(self.towners@[best_k] == best->0);
            }
        }
        best
    }

    /// Marks the hero dead once life has dropped to 0 or below; a dead hero
    /// stays dead.
    pub fn check_player_death(&mut self)
        ensures
            *final(self) == (GameState {
                player_dead: old(self).player_dead || old(self).player._p_hit_points <= 0,
                ..*old(self)
            }),
    {
        if self.player_dead {
            return;
        }
        if self.player._p_hit_points <= 0 {
            self.player_dead = true;
        }
    }
}

/// The loot of `items` not lying on `(x, y)`, in order.
pub open spec fn items_away(items: Seq<GroundItem>, x: i32, y: i32) -> Seq<GroundItem>
    decreases items.len(),
{
    if items.len() == 0 {
        items
    } else {
        let rest = items_away(items.drop_last(), x, y);
        if items.last().x == x && items.last().y == y {
            rest
        } else {
            rest.push(items.last())
        }
    }
}

/// The number of gold piles of `items` lying on `(x, y)`.
pub open spec fn gold_piles_at(items: Seq<GroundItem>, x: i32, y: i32) -> nat
    decreases items.len(),
{
    if items.len() == 0 {
        0
    } else {
        gold_piles_at(items.drop_last(), x, y) + if items.last().x == x && items.last().y == y
            && items.last().item_type == GroundItemType::Gold {
            1nat
        } else {
            0nat
        }
    }
}

/// `gold` after `piles` gold piles, each adding `GOLD_AMOUNT` and stopping
/// at the largest `i32`.
pub open spec fn gold_after(gold: int, piles: nat) -> int {
    if gold + GroundItemType::GOLD_AMOUNT * piles > i32::MAX {
        i32::MAX as int
    } else {
        gold + GroundItemType::GOLD_AMOUNT * piles
    }
}

/// The sign of `v`: -1, 0 or 1.
pub open spec fn sign(v: int) -> int {
    if v > 0 { 1 } else if v < 0 { -1 } else { 0 }
}

/// The sign of `b - a`, without overflow.
fn step_sign(a: i32, b: i32) -> (s: i32)
    ensures
        s == sign(b - a),
{
    if b > a { 1 } else if b < a { -1 } else { 0 }
}

/// `v` held to the walkable band 4 to 107 of the grid.
pub open spec fn keep_inside(v: int) -> int {
    if v < 4 { 4 } else if v > 107 { 107 } else { v }
}

/// Whether `b` is `a` with its dead hero brought back in town: full life
/// and mana, half the gold (rounded toward zero), no dungeon, no missiles
/// or loot, the stairs cooldown restarted, camera and hero on the town
/// spawn, alive.
pub open spec fn revived(a: GameState, b: GameState) -> bool {
    &&& b == (GameState {
        player: Player {
            _p_hit_points: a.player._p_max_hp,
            _p_hp_base: a.player._p_max_hp_base,
            _p_mana: a.player._p_max_mana,
            _p_mana_base: a.player._p_max_mana_base,
            _p_gold: trunc_div(a.player._p_gold as int, 2) as i32,
            position: Point { x: 75, y: 68 },
            ..a.player
        },
        in_dungeon: false,
        is_town: true,
        dungeon_layout: None,
        dungeon_up_stairs: None,
        simple_missiles: b.simple_missiles,
        ground_items: b.ground_items,
        last_transition_tick: a.game_tick,
        camera: Camera { tile_x: 75, tile_y: 68, sub_x: 0, sub_y: 0 },
        player_dead: false,
        ..a
    })
    &&& b.simple_missiles@.len() == 0
    &&& b.ground_items@.len() == 0
}

/// The life a level-up adds: a 32nd of the maximum base life (rounded
/// toward zero), at least 64.
pub open spec fn level_bump(p: Player) -> int {
    let q = trunc_div(p._p_max_hp_base as int, 32);
    if q > 64 { q } else { 64 }
}

/// Whether the hero, below level 50, has experience (no more than
/// `i32::MAX`) of at least `500 * level * level`.
pub open spec fn level_up_due(p: Player) -> bool {
    p._p_level < 50 && p._p_experience <= i32::MAX && p._p_experience >= 500 * p._p_level * p._p_level
}

/// The hero one level up, with `level_bump` added to life, maximum life and
/// maximum base life.
pub open spec fn one_level_up(p: Player) -> Player {
    Player {
        _p_level: (p._p_level + 1) as u8,
        _p_max_hp_base: (p._p_max_hp_base + level_bump(p)) as i32,
        _p_max_hp: (p._p_max_hp + level_bump(p)) as i32,
        _p_hit_points: (p._p_hit_points + level_bump(p)) as i32,
        ..p
    }
}

/// The hero after levelling up as long as a level-up is due.
pub open spec fn level_ups(p: Player) -> Player
    decreases 50 - p._p_level,
{
    if level_up_due(p) {
        level_ups(one_level_up(p))
    } else {
        p
    }
}

/// Whether every level-up `level_ups` makes keeps life, maximum life and
/// maximum base life within `i32`.
pub open spec fn level_ups_fit(p: Player) -> bool
    decreases 50 - p._p_level,
{
    if level_up_due(p) {
        &&& p._p_max_hp_base + level_bump(p) <= i32::MAX
        &&& p._p_max_hp + level_bump(p) <= i32::MAX
        &&& p._p_hit_points + level_bump(p) <= i32::MAX
        &&& level_ups_fit(one_level_up(p))
    } else {
        true
    }
}

/// Once the level-ups are made, none is due.
pub proof fn lemma_level_ups_settle(p: Player)
    ensures
        !level_up_due(level_ups(p)),
    decreases 50 - p._p_level,
{
    if level_up_due(p) {
        lemma_level_ups_settle(one_level_up(p));
    }
}

impl GameState {
    /// Brings a dead hero back in town: full life and mana, half the gold
    /// (rounded toward zero), no dungeon, no missiles or loot, the stairs
    /// cooldown restarted, camera and hero on the town spawn, alive. A live
    /// hero is left as is.
    pub fn resurrect_player(&mut self)
        ensures
            !old(self).player_dead ==> *final(self) == *old(self),
            old(self).player_dead ==> revived(*old(self), *final(self)),
    {
        if !self.player_dead {
            return;
        }
        self.player._p_hit_points = self.player._p_max_hp;
        self.player._p_hp_base = self.player._p_max_hp_base;
        self.player._p_mana = self.player._p_max_mana;
        self.player._p_mana_base = self.player._p_max_mana_base;
        self.player._p_gold = div_i32(self.player._p_gold, 2);
        self.in_dungeon = false;
        self.is_town = true;
        self.dungeon_layout = None;
        self.dungeon_up_stairs = None;
        self.simple_missiles.clear();
        self.ground_items.clear();
        self.mark_stair_transition();
        self.init_town_camera();
        self.player_dead = false;
    }

    /// Raises the hero level after level while below level 50 with
    /// experience of at least `500 * level * level` (experience beyond
    /// `i32::MAX` never counts): each level gained grows life, maximum life
    /// and maximum base life by a 32nd of the maximum base life (rounded
    /// toward zero), at least 64 (see `level_ups`). Afterwards the hero is
    /// at level 50 or short of the next threshold.
    pub fn check_level_up(&mut self)
        requires
            level_ups_fit(old(self).player),
        ensures
            *final(self) == (GameState { player: level_ups(old(self).player), ..*old(self) }),
            !level_up_due(final(self).player),
    {
        let ghost target = level_ups(old(self).player);
        proof {
            lemma_level_ups_settle(old(self).player);
        }
        loop
            invariant
                level_ups_fit(self.player),
                level_ups(self.player) == target,
                *self == (GameState { player: self.player, ..*old(self) }),
            ensures
                !level_up_due(self.player),
                level_ups(self.player) == target,
                *self == (GameState { player: self.player, ..*old(self) }),
            decreases 50 - self.player._p_level,
        {
            let lvl = self.player._p_level as i32;
            assert(0 <= lvl * lvl * 500 <= 255 * 255 * 500) by (nonlinear_arith)
                requires
                    0 <= lvl <= 255,
            ;
            assert(lvl * lvl * 500 == 500 * lvl * lvl) by (nonlinear_arith);
            let threshold = lvl * lvl * 500;
            let exp = self.player._p_experience;
            let reached = exp <= 0x7fff_ffffu32 && (exp as i32) >= threshold;
            if !(reached && lvl < 50) {
                assert(!level_up_due(self.player));
                break;
            }
            assert(exp as i32 == exp);
            assert(level_up_due(self.player));
            let q = div_i32(self.player._p_max_hp_base, 32);
            let bump = if q > 64 { q } else { 64 };
            self.player._p_level = self.player._p_level + 1;
            self.player._p_max_hp_base = self.player._p_max_hp_base + bump;
            self.player._p_max_hp = self.player._p_max_hp + bump;
            self.player._p_hit_points = self.player._p_hit_points + bump;
        }
        assert(level_ups(self.player) == self.player);
    }

    /// Picks up the loot on the hero's tile: each gold pile adds
    /// `GOLD_AMOUNT` gold (stopping at the largest `i32`), potions are taken
    /// without effect, and the rest of the loot stays in order.
    pub fn pickup_ground_items(&mut self)
        ensures
            ({
                let (px, py) = (old(self).player.position.x, old(self).player.position.y);
                let items = old(self).ground_items@;
                &&& final(self).ground_items@ == items_away(items, px, py)
                &&& *final(self) == (GameState {
                    player: Player {
                        _p_gold: gold_after(old(self).player._p_gold as int, gold_piles_at(items, px, py)) as i32,
                        ..old(self).player
                    },
                    ground_items: final(self).ground_items,
                    ..*old(self)
                })
            }),
    {
        if self.ground_items.len() == 0 {
            return;
        }
        let px = self.player.position.x;
        let py = self.player.position.y;
        let ghost items = self.ground_items@;
        let ghost g0 = self.player._p_gold as int;
        let mut remaining: Vec<GroundItem> = Vec::new();
        let mut gold = self.player._p_gold;
        let mut i: usize = 0;
        while i < self.ground_items.len()
            invariant
                self.ground_items@ == items,
                0 <= i <= items.len(),
                remaining@ == items_away(items.subrange(0, i as int), px, py),
                gold == gold_after(g0, gold_piles_at(items.subrange(0, i as int), px, py)),
                g0 >= i32::MIN,
            decreases items.len() - i,
        {
            let ghost pre = items.subrange(0, i as int);
            assert(items.subrange(0, i + 1).drop_last() =~= pre);
            let g = &self.ground_items[i];
            if g.x == px && g.y == py {
                if g.item_type == GroundItemType::Gold {
                    gold = if gold > i32::MAX - GroundItemType::GOLD_AMOUNT {
                        i32::MAX
                    } else {
                        gold + GroundItemType::GOLD_AMOUNT
                    };
                }
            } else {
                remaining.push(GroundItem { x: g.x, y: g.y, item_type: g.item_type, item_index: g.item_index });
            }
            i = i + 1;
        }
        assert(items.subrange(0, i as int) =~= items);
        self.ground_items = remaining;
        self.player._p_gold = gold;
    }

    /// Moves the hero one tile toward `(tx, ty)` on each axis, held to the
    /// band 4 to 107, with the camera on the hero.
    pub fn step_towards(&mut self, tx: i32, ty: i32)
        ensures
            ({
                let p = old(self).player.position;
                let nx = keep_inside(p.x + sign(tx - p.x)) as i32;
                let ny = keep_inside(p.y + sign(ty - p.y)) as i32;
                *final(self) == (GameState {
                    player: Player { position: Point { x: nx, y: ny }, ..old(self).player },
                    camera: Camera { tile_x: nx, tile_y: ny, ..old(self).camera },
                    ..*old(self)
                })
            }),
    {
        let dx = step_sign(self.player.position.x, tx);
        let dy = step_sign(self.player.position.y, ty);
        let x = self.player.position.x;
        let y = self.player.position.y;
        let nx = if x + dx < 4 { 4 } else if x + dx > 107 { 107 } else { x + dx };
        let ny = if y + dy < 4 { 4 } else if y + dy > 107 { 107 } else { y + dy };
        self.player.position.x = nx;
        self.player.position.y = ny;
        self.camera.tile_x = nx;
        self.camera.tile_y = ny;
    }
}

/// Whether the stairs cooldown is over at tick `tick` after a transition at
/// tick `last`.
pub open spec fn cooldown_ready(tick: u32, last: u32) -> bool {
    tick >= last && tick - last >= STAIRS_COOLDOWN_TICKS
}

/// Right after a transition the stairs are in cooldown, and they are ready
/// again from `STAIRS_COOLDOWN_TICKS` ticks later on.
pub proof fn lemma_stairs_cooldown(mark: u32, later: u32)
    ensures
        !cooldown_ready(mark, mark),
        later >= mark + STAIRS_COOLDOWN_TICKS ==> cooldown_ready(later, mark),
        mark <= later < mark + STAIRS_COOLDOWN_TICKS ==> !cooldown_ready(later, mark),
{
}

/// Opening a shop and closing it leaves the shop panel closed with no
/// shopkeeper, whatever was open before; every other part of the state is
/// untouched by either.
pub proof fn lemma_open_close_shop(g: GameState, kind: u8)
    ensures
        (GameState {
            shop_open: false,
            active_shop_npc: None,
            ..(GameState { shop_open: true, active_shop_npc: Some(kind), ..g })
        }) == (GameState { shop_open: false, active_shop_npc: None, ..g }),
{
}

/// A successful purchase costs exactly the price of the good bought, and
/// that price is the catalog's; the hero never goes below zero gold by
/// buying.
pub proof fn lemma_purchase_pays_price(gold: i32, npc: Option<u8>, index: int)
    requires
        0 <= index < shop_catalog(npc).len(),
        gold >= shop_catalog(npc)[index].1,
    ensures
        shop_catalog(npc)[index].1 > 0,
        0 <= gold - shop_catalog(npc)[index].1 < gold,
{
}


/// Whether the hero holds an item in the left hand (the weapon slot).
pub open spec fn armed(p: Player) -> bool {
    GameState::INV_BODY_HAND_LEFT < p.inv_body@.len() && p.inv_body@[GameState::INV_BODY_HAND_LEFT as int].item_id != 0
}

/// The hero with the item damage the left hand gives: a short sword's 1 to
/// 6 when it holds an item, else 0 to 0.
pub open spec fn with_weapon_damage(p: Player) -> Player {
    Player { _p_i_min_dam: if armed(p) { 1 } else { 0 }, _p_i_max_dam: if armed(p) { 6 } else { 0 }, ..p }
}

/// Whether `b` is `a` after handing the hero a starter weapon: a hand
/// already holding an item changes nothing; an empty left hand gets a short
/// sword (item 1, worn) and the damage 1 to 6; without a left-hand slot only
/// the item damage is recomputed.
pub open spec fn starter_weapon_step(a: GameState, b: GameState) -> bool {
    let p = a.player;
    let idx = GameState::INV_BODY_HAND_LEFT as int;
    if armed(p) {
        b == a
    } else if idx < p.inv_body@.len() {
        &&& b.player.inv_body@ == p.inv_body@.update(idx, PlayerItem { item_id: 1, equipped: true })
        &&& b == (GameState {
            player: Player { _p_i_min_dam: 1, _p_i_max_dam: 6, inv_body: b.player.inv_body, ..p },
            ..a
        })
    } else {
        b == (GameState { player: with_weapon_damage(p), ..a })
    }
}

/// Handing out the starter weapon twice is handing it out once.
pub proof fn lemma_starter_weapon_idempotent(a: GameState, b: GameState, c: GameState)
    requires
        starter_weapon_step(a, b),
        starter_weapon_step(b, c),
    ensures
        c == b,
{
    if !armed(a.player) && (GameState::INV_BODY_HAND_LEFT as int) < a.player.inv_body@.len() {
        assert(b.player.inv_body@[GameState::INV_BODY_HAND_LEFT as int].item_id == 1);
    }
}

impl GameState {
    /// The equipment slot of the left hand, where the weapon goes.
    pub const INV_BODY_HAND_LEFT: usize = 4;

    /// Sets the item damage from the left hand (see `with_weapon_damage`).
    pub fn recalc_equipment_stats(&mut self)
        ensures
            *final(self) == (GameState { player: with_weapon_damage(old(self).player), ..*old(self) }),
    {
        let idx = Self::INV_BODY_HAND_LEFT;
        if idx < self.player.inv_body.len() {
            if !self.player.inv_body[idx].is_empty() {
                self.player._p_i_min_dam = 1;
                self.player._p_i_max_dam = 6;
                return;
            }
        }
        self.player._p_i_min_dam = 0;
        self.player._p_i_max_dam = 0;
    }

    /// Puts a starter short sword in an empty left hand and sets the item
    /// damage from it; a hand already holding an item is left as it is.
    pub fn equip_starter_weapon(&mut self)
        ensures
            starter_weapon_step(*old(self), *final(self)),
    {
        let idx = Self::INV_BODY_HAND_LEFT;
        if idx < self.player.inv_body.len() {
            if !self.player.inv_body[idx].is_empty() {
                return;
            }
            self.player.inv_body.set(idx, PlayerItem { item_id: 1, equipped: true });
        }
        self.recalc_equipment_stats();
    }

    /// Whether the left hand holds an item.
    pub fn has_weapon_equipped(&self) -> (b: bool)
        ensures
            b == armed(self.player),
    {
        let idx = Self::INV_BODY_HAND_LEFT;
        idx < self.player.inv_body.len() && !self.player.inv_body[idx].is_empty()
    }
}


/// Whether `r` is the index of the first door of `objs` standing at
/// `(x, y)`, none when no door stands there.
pub open spec fn first_door(objs: Seq<Object>, x: i32, y: i32, r: Option<usize>) -> bool {
    match r {
        Some(i) => i < objs.len() && door_kind(objs[i as int].otype) && objs[i as int].position == (Point { x, y })
            && forall|k: int| 0 <= k < i ==> !(door_kind(#[trigger] objs[k].otype) && objs[k].position == (Point { x, y })),
        None => forall|k: int| 0 <= k < objs.len() ==> !(door_kind(#[trigger] objs[k].otype) && objs[k].position == (Point { x, y })),
    }
}

/// The open and closed pieces of door `o`: cathedral doors open on 392
/// (left) or 394 (right) and close on the piece they were placed on,
/// catacombs doors show 12/537 (left) and 16/539 (right), caves doors
/// 537/530 (left) and 540/533 (right); none for other objects.
pub open spec fn door_pieces(o: Object) -> Option<(u16, u16)> {
    match o.otype {
        ObjectId::L1LDoor => Some((392u16, o.ovar1 as u16)),
        ObjectId::L1RDoor => Some((394u16, o.ovar1 as u16)),
        ObjectId::L2LDoor => Some((12u16, 537u16)),
        ObjectId::L2RDoor => Some((16u16, 539u16)),
        ObjectId::L3LDoor => Some((537u16, 530u16)),
        ObjectId::L3RDoor => Some((540u16, 533u16)),
        _ => None,
    }
}

/// Whether level `b` is level `a` with door `o` showing its open (or
/// closed) piece on its tile; no level, a tile off the grid or an object
/// that is no door changes nothing.
pub open spec fn door_piece_set(a: Option<DungeonLayout>, b: Option<DungeonLayout>, o: Object, open: bool) -> bool {
    match a {
        None => b is None,
        Some(la) => match door_pieces(o) {
            None => b == a,
            Some(p) => b matches Some(lb) && lb == (DungeonLayout { d_piece: lb.d_piece, ..la })
                && lb.d_piece@ == grid_with(
                la.d_piece@,
                la.width as int,
                la.height as int,
                o.position.x as int,
                o.position.y as int,
                if open { p.0 } else { p.1 },
            ),
        },
    }
}

/// Whether a door at `pos` may shut: the hero, a living monster (their
/// tiles in `monsters_at`) or loot on the floor does not stand in it.
pub open spec fn doorway_clear(g: GameState, pos: Point, monsters_at: Seq<(i32, i32)>) -> bool {
    &&& !(g.player.position.x == pos.x && g.player.position.y == pos.y)
    &&& forall|k: int| 0 <= k < monsters_at.len() ==> #[trigger] monsters_at[k] != (pos.x, pos.y)
    &&& forall|k: int| 0 <= k < g.ground_items@.len() ==> !(#[trigger] g.ground_items@[k].x == pos.x && g.ground_items@[k].y == pos.y)
}

/// The objects and pieces after shutting, in order, the doors among the
/// first `n` objects: each records the piece under it and shows its closed
/// piece (see `door_pieces`).
pub open spec fn close_doors(objs: Seq<Object>, d: Option<Seq<u16>>, w: int, h: int, n: nat) -> (Seq<Object>, Option<Seq<u16>>)
    decreases n,
{
    if n == 0 {
        (objs, d)
    } else {
        let prev = close_doors(objs, d, w, h, (n - 1) as nat);
        let k = n - 1;
        let ob = prev.0[k];
        if !door_kind(ob.otype) {
            prev
        } else {
            let orig: i32 = match prev.1 {
                Some(s) => s[ob.position.y * w + ob.position.x] as i32,
                None => 0,
            };
            let shut = Object { ovar1: orig, door_state: DoorState::Closed, ..ob };
            let pieces = match prev.1 {
                Some(s) => match door_pieces(shut) {
                    Some(p) => Some(grid_with(s, w, h, ob.position.x as int, ob.position.y as int, p.1)),
                    None => prev.1,
                },
                None => prev.1,
            };
            (prev.0.update(k, shut), pieces)
        }
    }
}

/// Closing the doors keeps every object's kind and tile, and the count.
proof fn lemma_close_doors_keeps_places(objs: Seq<Object>, d: Option<Seq<u16>>, w: int, h: int, n: nat)
    requires
        n <= objs.len(),
        0 <= w,
        0 <= h,
        d matches Some(s) ==> w * h <= s.len(),
    ensures
        close_doors(objs, d, w, h, n).0.len() == objs.len(),
        forall|k: int| 0 <= k < objs.len() ==> (#[trigger] close_doors(objs, d, w, h, n).0[k]).otype == objs[k].otype
            && close_doors(objs, d, w, h, n).0[k].position == objs[k].position,
        forall|k: int| n <= k < objs.len() ==> #[trigger] close_doors(objs, d, w, h, n).0[k] == objs[k],
        d is Some <==> close_doors(objs, d, w, h, n).1 is Some,
        d matches Some(s) ==> close_doors(objs, d, w, h, n).1->0.len() == s.len(),
    decreases n,
{
    if n > 0 {
        lemma_close_doors_keeps_places(objs, d, w, h, (n - 1) as nat);
        let prev = close_doors(objs, d, w, h, (n - 1) as nat);
        let ob = prev.0[n - 1];
        if let Some(s1) = prev.1 {
            if 0 <= ob.position.x < w && 0 <= ob.position.y < h {
                lemma_cell_index_in_grid(w, h, ob.position.x as int, ob.position.y as int);
            }
        }
    }
}

impl GameState {
    /// The first door standing at `(x, y)`, if any.
    pub fn door_at_tile(&self, x: i32, y: i32) -> (r: Option<usize>)
        ensures
            first_door(self.objects@, x, y, r),
    {
        let mut i: usize = 0;
        while i < self.objects.len()
            invariant
                0 <= i <= self.objects@.len(),
                forall|k: int| 0 <= k < i ==> !(door_kind(#[trigger] self.objects@[k].otype)
                    && self.objects@[k].position == (Point { x, y })),
            decreases self.objects@.len() - i,
        {
            let o = self.objects[i];
            if o.is_door() && o.position.x == x && o.position.y == y {
                return Some(i);
            }
            i = i + 1;
        }
        None
    }

    /// Whether the door at `idx` may shut (see `doorway_clear`); true when
    /// there is no such object.
    fn is_door_clear(&self, idx: usize, monsters_at: &[(i32, i32)]) -> (b: bool)
        ensures
            b == (idx >= self.objects@.len() || doorway_clear(*self, self.objects@[idx as int].position, monsters_at@)),
    {
        if idx >= self.objects.len() {
            return true;
        }
        let pos = self.objects[idx].position;
        if self.player.position.x == pos.x && self.player.position.y == pos.y {
            return false;
        }
        let mut k: usize = 0;
        while k < monsters_at.len()
            invariant
                0 <= k <= monsters_at@.len(),
                idx < self.objects@.len(),
                pos == self.objects@[idx as int].position,
                forall|j: int| 0 <= j < k ==> #[trigger] monsters_at@[j] != (pos.x, pos.y),
            decreases monsters_at@.len() - k,
        {
            let (mx, my) = monsters_at[k];
            if mx == pos.x && my == pos.y {
                assert(monsters_at@[k as int] == (pos.x, pos.y));
                assert(!doorway_clear(*self, self.objects@[idx as int].position, monsters_at@));
                return false;
            }
            k = k + 1;
        }
        let mut j: usize = 0;
        while j < self.ground_items.len()
            invariant
                0 <= j <= self.ground_items@.len(),
                idx < self.objects@.len(),
                pos == self.objects@[idx as int].position,
                forall|m: int| 0 <= m < j ==> !(#[trigger] self.ground_items@[m].x == pos.x && self.ground_items@[m].y == pos.y),
            decreases self.ground_items@.len() - j,
        {
            if self.ground_items[j].x == pos.x && self.ground_items[j].y == pos.y {
                assert(self.ground_items@[j as int].x == pos.x && self.ground_items@[j as int].y == pos.y);
                assert(!doorway_clear(*self, self.objects@[idx as int].position, monsters_at@));
                return false;
            }
            j = j + 1;
        }
        true
    }

    /// Shows the open (or closed) piece of the object at `idx` on its tile
    /// (see `door_piece_set`); nothing happens when there is no such object.
    fn set_door_micros(&mut self, idx: usize, open: bool)
        requires
            old(self).dungeon_layout matches Some(l) ==> l.wf(),
        ensures
            idx < old(self).objects@.len() ==> door_piece_set(
                old(self).dungeon_layout,
                final(self).dungeon_layout,
                old(self).objects@[idx as int],
                open,
            ),
            idx >= old(self).objects@.len() ==> final(self).dungeon_layout == old(self).dungeon_layout,
            *final(self) == (GameState { dungeon_layout: final(self).dungeon_layout, ..*old(self) }),
    {
        if idx >= self.objects.len() {
            return;
        }
        let door = self.objects[idx];
        let pieces: Option<(u16, u16)> = match door.otype {
            ObjectId::L1LDoor => Some((392, door.ovar1 as u16)),
            ObjectId::L1RDoor => Some((394, door.ovar1 as u16)),
            ObjectId::L2LDoor => Some((12, 537)),
            ObjectId::L2RDoor => Some((16, 539)),
            ObjectId::L3LDoor => Some((537, 530)),
            ObjectId::L3RDoor => Some((540, 533)),
            _ => None,
        };
        let (open_micro, closed_micro) = match pieces {
            Some(p) => p,
            None => {
                return;
            },
        };
        match &mut self.dungeon_layout {
            Some(layout) => {
                layout.set(door.position.x, door.position.y, if open { open_micro } else { closed_micro });
            },
            None => {},
        }
    }

    /// Shuts every door of the level, in order (see `close_doors`): each
    /// records the piece it stands on and shows its closed piece.
    pub fn init_doors_closed(&mut self)
        requires
            old(self).dungeon_layout matches Some(l) ==> l.wf() && forall|k: int|
                0 <= k < old(self).objects@.len() && door_kind(#[trigger] old(self).objects@[k].otype) ==> 0
                    <= old(self).objects@[k].position.x < l.width && 0 <= old(self).objects@[k].position.y < l.height,
        ensures
            ({
                let g = *old(self);
                let (w, h) = match g.dungeon_layout {
                    Some(l) => (l.width as int, l.height as int),
                    None => (0int, 0int),
                };
                let r = close_doors(
                    g.objects@,
                    match g.dungeon_layout {
                        Some(l) => Some(l.d_piece@),
                        None => None,
                    },
                    w,
                    h,
                    g.objects@.len(),
                );
                &&& final(self).objects@ == r.0
                &&& match g.dungeon_layout {
                    Some(l) => final(self).dungeon_layout matches Some(fl) && fl == (DungeonLayout { d_piece: fl.d_piece, ..l })
                        && fl.d_piece@ == r.1->0,
                    None => final(self).dungeon_layout is None,
                }
                &&& *final(self) == (GameState {
                    objects: final(self).objects,
                    dungeon_layout: final(self).dungeon_layout,
                    ..g
                })
            }),
    {
        let ghost g = *old(self);
        let ghost w: int = match g.dungeon_layout {
            Some(l) => l.width as int,
            None => 0int,
        };
        let ghost h: int = match g.dungeon_layout {
            Some(l) => l.height as int,
            None => 0int,
        };
        let ghost d0: Option<Seq<u16>> = match g.dungeon_layout {
            Some(l) => Some(l.d_piece@),
            None => None,
        };
        let mut i: usize = 0;
        while i < self.objects.len()
            invariant
                0 <= i <= self.objects@.len(),
                self.objects@.len() == g.objects@.len(),
                self.objects@ == close_doors(g.objects@, d0, w, h, i as nat).0,
                match g.dungeon_layout {
                    Some(l) => self.dungeon_layout matches Some(cl) && cl == (DungeonLayout { d_piece: cl.d_piece, ..l })
                        && cl.d_piece@ == close_doors(g.objects@, d0, w, h, i as nat).1->0 && cl.wf()
                        && w == l.width && h == l.height
                        && forall|k: int|
                        0 <= k < g.objects@.len() && door_kind(#[trigger] g.objects@[k].otype) ==> 0
                            <= g.objects@[k].position.x < l.width && 0 <= g.objects@[k].position.y < l.height,
                    None => self.dungeon_layout is None && d0 is None,
                },
                d0 == (match g.dungeon_layout {
                    Some(l) => Some(l.d_piece@),
                    None => None::<Seq<u16>>,
                }),
                0 <= w,
                0 <= h,
                g.dungeon_layout matches Some(l) ==> l.wf(),
                *self == (GameState { objects: self.objects, dungeon_layout: self.dungeon_layout, ..g }),
            decreases g.objects@.len() - i,
        {
            proof {
                lemma_close_doors_keeps_places(g.objects@, d0, w, h, i as nat);
                lemma_close_doors_keeps_places(g.objects@, d0, w, h, (i + 1) as nat);
            }
            let o = self.objects[i];
            assert(o == g.objects@[i as int]);
            if o.is_door() {
                assert(door_kind(g.objects@[i as int].otype));
                let original: u16 = match &self.dungeon_layout {
                    Some(l) => {
                        let yu = o.position.y as usize;
                        let xu = o.position.x as usize;
                        let len = l.d_piece.len();
                        proof {
                            assert(yu < l.height && xu < l.width);
                            assert(l.width * l.height <= l.d_piece@.len());
                            lemma_cell_index_in_grid(l.width as int, l.height as int, xu as int, yu as int);
                            assert(yu * l.width <= yu * l.width + xu < len);
                        }
                        l.d_piece[yu * l.width + xu]
                    },
                    None => 0,
                };
                let shut = Object { ovar1: original as i32, door_state: DoorState::Closed, ..o };
                self.objects.set(i, shut);
                self.set_door_micros(i, false);
            }
            i = i + 1;
        }
        proof {
            lemma_close_doors_keeps_places(g.objects@, d0, w, h, i as nat);
        }
    }

    /// Opens a shut door, or shuts an open one, and shows its piece (see
    /// `door_piece_set`); a door that cannot shut because something stands
    /// in the doorway (see `doorway_clear`; `monsters_at` holds the tiles of
    /// the living monsters) becomes blocked and stays open. Anything but a
    /// door at `idx` changes nothing.
    pub fn operate_door(&mut self, idx: usize, monsters_at: &[(i32, i32)])
        requires
            old(self).dungeon_layout matches Some(l) ==> l.wf(),
        ensures
            ({
                let g = *old(self);
                if idx >= g.objects@.len() || !door_kind(g.objects@[idx as int].otype) {
                    *final(self) == g
                } else {
                    let o = g.objects@[idx as int];
                    let opening = o.door_state == DoorState::Closed;
                    if !opening && !doorway_clear(g, o.position, monsters_at@) {
                        &&& final(self).objects@ == g.objects@.update(idx as int, Object { door_state: DoorState::Blocked, ..o })
                        &&& *final(self) == (GameState { objects: final(self).objects, ..g })
                    } else {
                        let moved = Object {
                            door_state: if opening { DoorState::Open } else { DoorState::Closed },
                            ..o
                        };
                        &&& final(self).objects@ == g.objects@.update(idx as int, moved)
                        &&& door_piece_set(g.dungeon_layout, final(self).dungeon_layout, moved, opening)
                        &&& *final(self) == (GameState {
                            objects: final(self).objects,
                            dungeon_layout: final(self).dungeon_layout,
                            ..g
                        })
                    }
                }
            }),
    {
        if idx >= self.objects.len() || !self.objects[idx].is_door() {
            return;
        }
        let o = self.objects[idx];
        let open = o.door_state == DoorState::Closed;
        if !open && !self.is_door_clear(idx, monsters_at) {
            self.objects.set(idx, Object { door_state: DoorState::Blocked, ..o });
            return;
        }
        let new_state = if open { DoorState::Open } else { DoorState::Closed };
        self.objects.set(idx, Object { door_state: new_state, ..o });
        self.set_door_micros(idx, open);
    }
}


/// Opening a door and shutting it again shows its closed piece on its tile
/// and leaves every other tile of the level as it was.
pub proof fn lemma_door_open_then_shut(a: DungeonLayout, b: Option<DungeonLayout>, c: Option<DungeonLayout>, o: Object, o2: Object, x: int, y: int)
    requires
        a.wf(),
        door_pieces(o) is Some,
        o2.otype == o.otype,
        o2.ovar1 == o.ovar1,
        o2.position == o.position,
        door_piece_set(Some(a), b, o, true),
        door_piece_set(b, c, o2, false),
    ensures
        c matches Some(lc) && lc.width == a.width && lc.height == a.height && lc.cell(x, y) == (if x == o.position.x && y
            == o.position.y && 0 <= x < a.width && 0 <= y < a.height {
            (door_pieces(o)->0).1
        } else {
            a.cell(x, y)
        }),
{
    let lb = b->0;
    let lc = c->0;
    lemma_grid_set_then_get(a.d_piece@, a.width as int, a.height as int, o.position.x as int, o.position.y as int, (door_pieces(o)->0).0, x, y);
    assert(lb.d_piece@.len() == a.d_piece@.len()) by {
        if 0 <= o.position.x < a.width && 0 <= o.position.y < a.height {
            lemma_cell_index_in_grid(a.width as int, a.height as int, o.position.x as int, o.position.y as int);
        }
    }
    lemma_grid_set_then_get(lb.d_piece@, lb.width as int, lb.height as int, o.position.x as int, o.position.y as int, (door_pieces(o)->0).1, x, y);
}


/// The mana a firebolt costs, in 1/64 units (6 points).
pub const FIREBOLT_MANA_COST_64X: i32 = 384;

impl GameState {
    /// Adds an object to the level.
    pub fn add_object(&mut self, object: Object)
        ensures
            final(self).objects@ == old(self).objects@.push(object),
            *final(self) == (GameState { objects: final(self).objects, ..*old(self) }),
    {
        self.objects.push(object);
    }

    /// Casts a firebolt one tile a step toward the direction
    /// `(target_dx, target_dy)` (each reduced to its sign): it fails, changing
    /// nothing, when the hero has less than `FIREBOLT_MANA_COST_64X` mana or
    /// the direction is none; else the mana is spent and a missile leaves the
    /// hero's tile with damage 6 plus the hero's level and a range of 12.
    pub fn cast_firebolt_toward(&mut self, target_dx: i32, target_dy: i32) -> (cast: bool)
        ensures
            ({
                let g = *old(self);
                let dx = sign(target_dx as int) as i32;
                let dy = sign(target_dy as int) as i32;
                &&& cast == (g.player._p_mana >= FIREBOLT_MANA_COST_64X && !(dx == 0 && dy == 0))
                &&& !cast ==> *final(self) == g
                &&& cast ==> {
                    &&& final(self).simple_missiles@ == g.simple_missiles@.push(SimpleMissile {
                        x: g.player.position.x,
                        y: g.player.position.y,
                        dx,
                        dy,
                        damage: (6 + g.player._p_level) as i32,
                        range_left: 12,
                    })
                    &&& *final(self) == (GameState {
                        player: Player { _p_mana: (g.player._p_mana - FIREBOLT_MANA_COST_64X) as i32, ..g.player },
                        simple_missiles: final(self).simple_missiles,
                        ..g
                    })
                }
            }),
    {
        if self.player._p_mana < FIREBOLT_MANA_COST_64X {
            return false;
        }
        let dx: i32 = if target_dx > 0 { 1 } else if target_dx < 0 { -1 } else { 0 };
        let dy: i32 = if target_dy > 0 { 1 } else if target_dy < 0 { -1 } else { 0 };
        if dx == 0 && dy == 0 {
            return false;
        }
        self.player._p_mana = self.player._p_mana - FIREBOLT_MANA_COST_64X;
        let p = self.player.position;
        let damage = 6 + (self.player._p_level as i32);
        self.simple_missiles.push(SimpleMissile { x: p.x, y: p.y, dx, dy, damage, range_left: 12 });
        true
    }
}


/// Commands another player sends.
#[derive(Debug, Clone, Copy, PartialEq, Eq, Structural)]
pub enum CmdId {
    /// Walk toward a tile.
    WalkXY,
    /// Attack a monster.
    AttackId,
    /// Cast a spell at a tile.
    SpellXY,
    /// Cast a spell at a target.
    SpellId,
    /// Open a door.
    OpenDoor,
    /// Close a door.
    CloseDoor,
    /// Any other command.
    Other,
}

/// What handling a command came to.
#[derive(Debug, Clone, Copy, PartialEq, Eq, Structural)]
pub enum CommandOutcome {
    /// Refused: the data is too short, the monster number negative, no door
    /// stands at the tile, or the command is not one handled here.
    Rejected,
    /// Applied to the state.
    Applied,
    /// The caller attacks the monster in this slot, refusing the command
    /// when no live monster is there.
    Attack(usize),
    /// The caller operates the door at this index of the objects from the
    /// other player's side, opening it (true) or closing it (false).
    SyncDoor(usize, bool),
}

/// The signed 16-bit number stored little-endian in `lo`, `hi`.
pub open spec fn le_i16(lo: u8, hi: u8) -> int {
    let raw = lo + 256 * hi;
    if raw >= 32768 { raw - 65536 } else { raw }
}

/// What handling `cmd` with the bytes `data` (command byte first) does to
/// `g`, given the door `door` found at the tile `(data[1], data[2])` for
/// door commands.
pub open spec fn command_outcome(g: GameState, cmd: CmdId, data: Seq<u8>, door: Option<usize>) -> (CommandOutcome, GameState) {
    match cmd {
        CmdId::WalkXY => if data.len() < 3 {
            (CommandOutcome::Rejected, g)
        } else {
            let p = g.player.position;
            let nx = keep_inside(p.x + sign(data[1] - p.x)) as i32;
            let ny = keep_inside(p.y + sign(data[2] - p.y)) as i32;
            (
                CommandOutcome::Applied,
                GameState {
                    player: Player { position: Point { x: nx, y: ny }, ..g.player },
                    camera: Camera { tile_x: nx, tile_y: ny, ..g.camera },
                    ..g
                },
            )
        },
        CmdId::AttackId => if data.len() < 3 || le_i16(data[1], data[2]) < 0 {
            (CommandOutcome::Rejected, g)
        } else {
            (CommandOutcome::Attack(le_i16(data[1], data[2]) as usize), g)
        },
        CmdId::SpellXY | CmdId::SpellId => if data.len() < 5 {
            (CommandOutcome::Rejected, g)
        } else {
            (
                CommandOutcome::Applied,
                GameState { pending_spell: Some((data[1] as i32, data[2] as i32, le_i16(data[3], data[4]) as i32)), ..g },
            )
        },
        CmdId::OpenDoor | CmdId::CloseDoor => if data.len() < 3 {
            (CommandOutcome::Rejected, g)
        } else {
            match door {
                Some(i) => (CommandOutcome::SyncDoor(i, cmd == CmdId::OpenDoor), g),
                None => (CommandOutcome::Rejected, g),
            }
        },
        CmdId::Other => (CommandOutcome::Rejected, g),
    }
}

impl GameState {
    /// Handles a command another player sent, `data` holding its bytes with
    /// the command byte first: a walk steps the hero one tile toward the
    /// tile in bytes 1 and 2 (see `step_towards`); a spell records its tile
    /// (bytes 1 and 2) and number (bytes 3 and 4, little-endian) as pending;
    /// an attack names its monster (bytes 1 and 2) and a door command the
    /// door standing at its tile, for the caller; too short data, a negative
    /// monster number, a tile without a door and other commands are refused
    /// (see `command_outcome`).
    pub fn handle_command(&mut self, cmd: CmdId, data: &[u8]) -> (r: CommandOutcome)
        ensures
            (cmd == CmdId::OpenDoor || cmd == CmdId::CloseDoor) && data@.len() >= 3 ==> exists|d: Option<usize>|
                #[trigger] first_door(old(self).objects@, data@[1] as i32, data@[2] as i32, d) && (r, *final(self))
                    == command_outcome(*old(self), cmd, data@, d),
            !((cmd == CmdId::OpenDoor || cmd == CmdId::CloseDoor) && data@.len() >= 3) ==> (r, *final(self))
                == command_outcome(*old(self), cmd, data@, None),
    {
        match cmd {
            CmdId::WalkXY => {
                if data.len() < 3 {
                    return CommandOutcome::Rejected;
                }
                self.step_towards(data[1] as i32, data[2] as i32);
                CommandOutcome::Applied
            },
            CmdId::AttackId => {
                if data.len() < 3 {
                    return CommandOutcome::Rejected;
                }
                let raw: u16 = data[1] as u16 + 256 * (data[2] as u16);
                if raw >= 32768 {
                    return CommandOutcome::Rejected;
                }
                CommandOutcome::Attack(raw as usize)
            },
            CmdId::SpellXY | CmdId::SpellId => {
                if data.len() < 5 {
                    return CommandOutcome::Rejected;
                }
                let raw: i32 = data[3] as i32 + 256 * (data[4] as i32);
                let spell_id: i32 = if raw >= 32768 { raw - 65536 } else { raw };
                self.pending_spell = Some((data[1] as i32, data[2] as i32, spell_id));
                CommandOutcome::Applied
            },
            CmdId::OpenDoor | CmdId::CloseDoor => {
                if data.len() < 3 {
                    return CommandOutcome::Rejected;
                }
                let d = self.door_at_tile(data[1] as i32, data[2] as i32);
                assert(first_door(self.objects@, data@[1] as i32, data@[2] as i32, d));
                match d {
                    Some(i) => CommandOutcome::SyncDoor(i, cmd == CmdId::OpenDoor),
                    None => CommandOutcome::Rejected,
                }
            },
            CmdId::Other => CommandOutcome::Rejected,
        }
    }
}



/// Whether buying good `i` in `g` hands over `(name, price)` and takes
/// exactly `price` gold when the hero has that much, and fails with "not
/// enough gold", changing nothing, when not.
pub open spec fn bought(g: GameState, i: int, name: &'static str, price: i32) -> bool {
    &&& g.player._p_gold >= price ==> buy_outcome(g, i) == (
        Ok::<(&'static str, i32), &'static str>((name, price)),
        GameState { player: Player { _p_gold: (g.player._p_gold - price) as i32, ..g.player }, ..g },
    )
    &&& g.player._p_gold < price ==> buy_outcome(g, i) == (Err::<(&'static str, i32), &'static str>("not enough gold"), g)
}

/// The shops' goods and prices are fixed. The smith sells a short sword
/// (120), a buckler (60), a club (20) and chain mail (240); the healer a
/// potion of healing (50), one of full healing (150) and one of mana (50);
/// the witch scrolls of firebolt and of healing (100 each), a staff of
/// firebolt (400) and a book of firebolt (1200); the boy his premium item
/// (1000). Buying a good with the gold for it takes exactly its price;
/// without, it fails; past the last good, at a dweller without a shop, or
/// with no shop open, nothing is sold.
pub proof fn lemma_shop_goods_and_prices(g: GameState, i: int)
    requires
        0 <= i,
    ensures
        g.shop_open && g.active_shop_npc == Some(0u8) && i == 0 ==> bought(g, i, "Short Sword (1-6 dmg)", 120i32),
        g.shop_open && g.active_shop_npc == Some(0u8) && i == 1 ==> bought(g, i, "Buckler (AC 5)", 60i32),
        g.shop_open && g.active_shop_npc == Some(0u8) && i == 2 ==> bought(g, i, "Club (1-3 dmg)", 20i32),
        g.shop_open && g.active_shop_npc == Some(0u8) && i == 3 ==> bought(g, i, "Chain Mail (AC 12)", 240i32),
        g.shop_open && g.active_shop_npc == Some(0u8) && i >= 4 ==> buy_outcome(g, i) == (Err::<(&'static str, i32), &'static str>("item out of range"), g),
        g.shop_open && g.active_shop_npc == Some(1u8) && i == 0 ==> bought(g, i, "Potion of Healing", 50i32),
        g.shop_open && g.active_shop_npc == Some(1u8) && i == 1 ==> bought(g, i, "Potion of Full Healing", 150i32),
        g.shop_open && g.active_shop_npc == Some(1u8) && i == 2 ==> bought(g, i, "Potion of Mana", 50i32),
        g.shop_open && g.active_shop_npc == Some(1u8) && i >= 3 ==> buy_outcome(g, i) == (Err::<(&'static str, i32), &'static str>("item out of range"), g),
        g.shop_open && g.active_shop_npc == Some(6u8) && i == 0 ==> bought(g, i, "Scroll of Firebolt", 100i32),
        g.shop_open && g.active_shop_npc == Some(6u8) && i == 1 ==> bought(g, i, "Scroll of Healing", 100i32),
        g.shop_open && g.active_shop_npc == Some(6u8) && i == 2 ==> bought(g, i, "Staff of Firebolt", 400i32),
        g.shop_open && g.active_shop_npc == Some(6u8) && i == 3 ==> bought(g, i, "Book of Firebolt", 1200i32),
        g.shop_open && g.active_shop_npc == Some(6u8) && i >= 4 ==> buy_outcome(g, i) == (Err::<(&'static str, i32), &'static str>("item out of range"), g),
        g.shop_open && g.active_shop_npc == Some(8u8) && i == 0 ==> bought(g, i, "Wirt's Premium Item", 1000i32),
        g.shop_open && g.active_shop_npc == Some(8u8) && i >= 1 ==> buy_outcome(g, i) == (Err::<(&'static str, i32), &'static str>("item out of range"), g),
        g.shop_open ==> (g.active_shop_npc matches Some(k) && k != 0 && k != 1 && k != 6 && k != 8 ==> buy_outcome(g, i) == (Err::<(&'static str, i32), &'static str>("item out of range"), g)),
        !g.shop_open ==> buy_outcome(g, i) == (Err::<(&'static str, i32), &'static str>("no shop open"), g),
{
}


/// A walk command with its tile inside the walkable band, for a hero inside
/// it, is applied and steps the hero toward x = `data[1]`, y = `data[2]`:
/// each coordinate that differs from its target moves one closer to it, the
/// others stay, and the camera follows the hero.
pub proof fn lemma_walk_command_steps_toward(g: GameState, data: Seq<u8>, door: Option<usize>)
    requires
        data.len() >= 3,
        4 <= data[1] <= 107,
        4 <= data[2] <= 107,
        4 <= g.player.position.x <= 107,
        4 <= g.player.position.y <= 107,
    ensures
        ({
            let r = command_outcome(g, CmdId::WalkXY, data, door);
            let p = g.player.position;
            let q = r.1.player.position;
            &&& r.0 == CommandOutcome::Applied
            &&& (p.x == data[1] ==> q.x == p.x)
            &&& (p.x != data[1] ==> abs_diff(q.x as int, data[1] as int) == abs_diff(p.x as int, data[1] as int) - 1)
            &&& (p.y == data[2] ==> q.y == p.y)
            &&& (p.y != data[2] ==> abs_diff(q.y as int, data[2] as int) == abs_diff(p.y as int, data[2] as int) - 1)
            &&& r.1.camera.tile_x == q.x && r.1.camera.tile_y == q.y
        }),
{
}


/// A spell command of at least five bytes is applied and records, as the
/// pending spell, x = `data[1]`, y = `data[2]` and the spell number whose
/// low byte is `data[3]` and high byte `data[4]` (a high byte of 128 or more
/// making it negative); an attack command of at least three bytes names the
/// monster slot with low byte `data[1]` and high byte `data[2]` when that
/// high byte is below 128, and is refused otherwise. Neither moves anything
/// else.
pub proof fn lemma_spell_and_attack_commands(g: GameState, data: Seq<u8>, door: Option<usize>)
    requires
        data.len() >= 3,
    ensures
        data.len() >= 5 ==> ({
            let r = command_outcome(g, CmdId::SpellXY, data, door);
            let number = data[3] + 256 * data[4] - (if data[4] >= 128 { 65536int } else { 0int });
            &&& r.0 == CommandOutcome::Applied
            &&& r.1.pending_spell matches Some((x, y, n)) && x == data[1] && y == data[2] && n == number
            &&& r.1.player == g.player && r.1.camera == g.camera
        }),
        data.len() >= 5 ==> command_outcome(g, CmdId::SpellId, data, door) == command_outcome(g, CmdId::SpellXY, data, door),
        data[2] < 128 ==> command_outcome(g, CmdId::AttackId, data, door) == (
            CommandOutcome::Attack((data[1] + 256 * data[2]) as usize),
            g,
        ),
        data[2] >= 128 ==> command_outcome(g, CmdId::AttackId, data, door) == (CommandOutcome::Rejected, g),
{
}

} // verus!
