//! Game mode flags and the game identifier they select.

use vstd::prelude::*;

verus! {

/// The identifier of Hellfire shareware, `"HSHR"` read big-endian.
pub const GAME_ID_HELLFIRE_SPAWN: u32 = 0x4853_4852;

/// The identifier of full Hellfire, `"HRTL"` read big-endian.
pub const GAME_ID_HELLFIRE: u32 = 0x4852_544C;

/// The identifier of Diablo shareware, `"DSHR"` read big-endian.
pub const GAME_ID_DIABLO_SPAWN: u32 = 0x4453_4852;

/// The identifier of full Diablo, `"DRTL"` read big-endian.
pub const GAME_ID_DIABLO: u32 = 0x4452_544C;

/// Game mode configuration.
#[derive(Debug, Clone, Copy, PartialEq, Eq, Structural)]
pub struct GameMode {
    /// The game runs (rather than the main menu).
    pub run_game: bool,
    /// Shareware version.
    pub is_spawn: bool,
    /// Hellfire expansion.
    pub is_hellfire: bool,
    /// Vanilla save files.
    pub vanilla: bool,
    /// Hellfire forced.
    pub force_hellfire: bool,
}

impl Default for GameMode {
    fn default() -> (m: Self)
        ensures
            !m.run_game && !m.is_spawn && !m.is_hellfire && !m.vanilla && !m.force_hellfire,
    {
        GameMode {
            run_game: false,
            is_spawn: false,
            is_hellfire: false,
            vanilla: false,
            force_hellfire: false,
        }
    }
}

impl GameMode {
    /// The game identifier for these flags.
    pub open spec fn spec_game_id(self) -> u32 {
        if self.is_hellfire {
            if self.is_spawn { GAME_ID_HELLFIRE_SPAWN } else { GAME_ID_HELLFIRE }
        } else {
            if self.is_spawn { GAME_ID_DIABLO_SPAWN } else { GAME_ID_DIABLO }
        }
    }

    /// Whether this is the full version (not shareware).
    pub fn is_full_version(&self) -> (b: bool)
        ensures
            b == !self.is_spawn,
    {
        !self.is_spawn
    }

    /// The four-letter identifier used for network and save compatibility.
    pub fn game_id(&self) -> (id: u32)
        ensures
            id == self.spec_game_id(),
    {
        match (self.is_hellfire, self.is_spawn) {
            (true, true) => GAME_ID_HELLFIRE_SPAWN,
            (true, false) => GAME_ID_HELLFIRE,
            (false, true) => GAME_ID_DIABLO_SPAWN,
            (false, false) => GAME_ID_DIABLO,
        }
    }
}

/// The four editions have four distinct identifiers.
pub proof fn lemma_game_ids_distinct(a: GameMode, b: GameMode)
    ensures
        a.spec_game_id() == b.spec_game_id() <==> (a.is_hellfire == b.is_hellfire && a.is_spawn
            == b.is_spawn),
{
}

} // verus!
