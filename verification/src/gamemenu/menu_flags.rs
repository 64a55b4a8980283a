//! Flag bits of the game menu items.

use vstd::prelude::*;

verus! {

/// Enabled.
pub const ENABLED: u32 = 1;

/// Slider.
pub const SLIDER: u32 = 2;

} // verus!
