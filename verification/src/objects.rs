//! Objects placed on a dungeon level; the logic here reads doors.

use vstd::prelude::*;
use crate::objdat::ObjectId;
use crate::types::Point;

verus! {

/// Whether a door is shut, open, or held open by something in its way.
#[derive(Debug, Clone, Copy, PartialEq, Eq, Structural)]
pub enum DoorState {
    /// Shut.
    Closed,
    /// Open.
    Open,
    /// Open, and refused to shut over something in the doorway.
    Blocked,
}

/// An object on the level: its kind, micro-tile, the piece it stood on when
/// placed, and (for a door) whether it is open.
#[derive(Debug, Clone, Copy, PartialEq, Eq, Structural)]
pub struct Object {
    /// The kind of object.
    pub otype: ObjectId,
    /// Micro-tile.
    pub position: Point,
    /// For a door, the piece under it when it was placed.
    pub ovar1: i32,
    /// For a door, its state.
    pub door_state: DoorState,
}

/// Whether objects of kind `o` are doors.
pub open spec fn door_kind(o: ObjectId) -> bool {
    o != ObjectId::L1Light
}

impl Object {
    /// An object of kind `otype` at `position`; a door starts closed.
    pub fn new(otype: ObjectId, position: Point) -> (o: Self)
        ensures
            o == (Object { otype, position, ovar1: 0, door_state: DoorState::Closed }),
    {
        Object { otype, position, ovar1: 0, door_state: DoorState::Closed }
    }

    /// Whether the object is a door.
    pub fn is_door(&self) -> (b: bool)
        ensures
            b == door_kind(self.otype),
    {
        match self.otype {
            ObjectId::L1Light => false,
            _ => true,
        }
    }
}

} // verus!
