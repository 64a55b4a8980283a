//! Dimensions of the level grids.

use vstd::prelude::*;

verus! {

/// Width of a level's micro-tile grid.
pub const MAXDUNX: usize = 112;

/// Height of a level's micro-tile grid.
pub const MAXDUNY: usize = 112;

/// Width of a level's logical 40x40 tile grid.
pub const DMAXX: usize = 40;

/// Height of a level's logical 40x40 tile grid.
pub const DMAXY: usize = 40;

} // verus!
