//! The hero's state as the game logic reads it: position, gold, life, mana,
//! level and experience, attributes, item bonuses and the equipment slots.

use vstd::prelude::*;
use crate::types::Point;

verus! {

/// An item in an equipment slot; an item numbered 0 is no item.
#[derive(Debug, Clone, Copy, PartialEq, Eq, Structural)]
pub struct PlayerItem {
    /// The item's number, 0 for none.
    pub item_id: i32,
    /// Whether it is worn.
    pub equipped: bool,
}

impl PlayerItem {
    /// No item.
    pub fn empty() -> (item: Self)
        ensures
            item == (PlayerItem { item_id: 0, equipped: false }),
    {
        PlayerItem { item_id: 0, equipped: false }
    }

    /// Whether the slot holds no item.
    pub fn is_empty(&self) -> (b: bool)
        ensures
            b == (self.item_id == 0),
    {
        self.item_id == 0
    }
}

/// The hero. Life and mana are in 1/64 units.
#[derive(Debug, Clone)]
pub struct Player {
    /// World tile.
    pub position: Point,
    /// Gold carried.
    pub _p_gold: i32,
    /// Life.
    pub _p_hit_points: i32,
    /// Maximum life.
    pub _p_max_hp: i32,
    /// Base life.
    pub _p_hp_base: i32,
    /// Maximum base life.
    pub _p_max_hp_base: i32,
    /// Mana.
    pub _p_mana: i32,
    /// Maximum mana.
    pub _p_max_mana: i32,
    /// Base mana.
    pub _p_mana_base: i32,
    /// Maximum base mana.
    pub _p_max_mana_base: i32,
    /// Character level.
    pub _p_level: u8,
    /// Experience.
    pub _p_experience: u32,
    /// Strength, with item bonuses.
    pub _p_strength: i32,
    /// Base strength.
    pub _p_base_str: i32,
    /// Magic, with item bonuses.
    pub _p_magic: i32,
    /// Base magic.
    pub _p_base_mag: i32,
    /// Dexterity, with item bonuses.
    pub _p_dexterity: i32,
    /// Base dexterity.
    pub _p_base_dex: i32,
    /// Vitality, with item bonuses.
    pub _p_vitality: i32,
    /// Base vitality.
    pub _p_base_vit: i32,
    /// Armour class from items.
    pub _p_i_ac: i32,
    /// Least damage from items.
    pub _p_i_min_dam: i32,
    /// Most damage from items.
    pub _p_i_max_dam: i32,
    /// The equipment slots: head, left ring, right ring, amulet, left hand,
    /// right hand, chest.
    pub inv_body: Vec<PlayerItem>,
}

} // verus!
