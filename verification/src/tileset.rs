//! Tile-set data read from a level's files: the mega-tiles of a TIL table
//! and the sector templates of a DUN file.

use vstd::prelude::*;

verus! {

/// A mega-tile: the four micro-tiles of a 2x2 block, in reading order.
#[derive(Debug, Clone, Copy, PartialEq, Eq, Structural)]
pub struct TilEntry {
    /// Top-left micro-tile.
    pub micro1: u16,
    /// Top-right micro-tile.
    pub micro2: u16,
    /// Bottom-left micro-tile.
    pub micro3: u16,
    /// Bottom-right micro-tile.
    pub micro4: u16,
}

/// A sector template: a grid of 1-based mega-tile ids, row-major, where 0
/// leaves a tile unset.
#[derive(Debug, Clone)]
pub struct DunTemplate {
    /// Width in mega-tiles.
    pub width: u16,
    /// Height in mega-tiles.
    pub height: u16,
    /// Mega-tile ids, row by row.
    pub tiles: Vec<u16>,
}

/// The four micro-tiles of a mega-tile as a tuple.
pub open spec fn micros(t: TilEntry) -> (u16, u16, u16, u16) {
    (t.micro1, t.micro2, t.micro3, t.micro4)
}

/// The micro-tile at offset `(dx, dy)`, each 0 or 1, of a 2x2 block.
pub open spec fn micro_at(m: (u16, u16, u16, u16), dx: int, dy: int) -> u16 {
    if dy == 0 {
        if dx == 0 { m.0 } else { m.1 }
    } else {
        if dx == 0 { m.2 } else { m.3 }
    }
}

} // verus!
