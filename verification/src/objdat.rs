//! Objects that a level's layout places by itself: its lights and doors.

use vstd::prelude::*;

verus! {

/// Objects placed from a level's micro-tiles.
#[derive(Debug, Clone, Copy, PartialEq, Eq, Structural)]
pub enum ObjectId {
    /// A cathedral light.
    L1Light,
    /// A cathedral door opening left.
    L1LDoor,
    /// A cathedral door opening right.
    L1RDoor,
    /// A catacombs door opening left.
    L2LDoor,
    /// A catacombs door opening right.
    L2RDoor,
    /// A caves door opening left.
    L3LDoor,
    /// A caves door opening right.
    L3RDoor,
}

} // verus!
