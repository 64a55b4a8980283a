//! Kinds of damage dealt in combat.

use vstd::prelude::*;

verus! {

/// The kind of a hit's damage.
#[derive(Debug, Clone, Copy, PartialEq, Eq, Structural)]
pub enum DamageType {
    /// Physical damage.
    Physical,
    /// Fire damage.
    Fire,
    /// Lightning damage.
    Lightning,
    /// Magic damage.
    Magic,
}

} // verus!
