//! Game-mode state: which edition of the game runs and which features it has.

use vstd::prelude::*;

verus! {

/// Game mode state container: the current game mode and variant flags.
#[derive(Debug, Clone, Copy, PartialEq, Eq, Structural)]
pub struct GameModeState {
    /// Game is currently running.
    pub run_game: bool,
    /// Shareware/spawn (demo) mode.
    pub is_spawn: bool,
    /// Hellfire expansion is active.
    pub is_hellfire: bool,
    /// Vanilla mode (no quality-of-life modifications).
    pub is_vanilla: bool,
    /// Force Hellfire mode.
    pub force_hellfire: bool,
}

impl GameModeState {
    /// The state with every flag cleared.
    pub open spec fn cleared() -> GameModeState {
        GameModeState {
            run_game: false,
            is_spawn: false,
            is_hellfire: false,
            is_vanilla: false,
            force_hellfire: false,
        }
    }

    /// Creates a new game mode state with every flag cleared.
    pub fn new() -> (s: Self)
        ensures
            s == Self::cleared(),
    {
        GameModeState {
            run_game: false,
            is_spawn: false,
            is_hellfire: false,
            is_vanilla: false,
            force_hellfire: false,
        }
    }

    /// Creates the state of the full Diablo game.
    pub fn diablo() -> (s: Self)
        ensures
            s == Self::cleared(),
    {
        Self::new()
    }

    /// Creates the state of the Hellfire expansion.
    pub fn hellfire() -> (s: Self)
        ensures
            s == (GameModeState { is_hellfire: true, ..Self::cleared() }),
    {
        GameModeState {
            run_game: false,
            is_spawn: false,
            is_hellfire: true,
            is_vanilla: false,
            force_hellfire: false,
        }
    }

    /// Creates the state of shareware/demo mode.
    pub fn shareware() -> (s: Self)
        ensures
            s == (GameModeState { is_spawn: true, ..Self::cleared() }),
    {
        GameModeState {
            run_game: false,
            is_spawn: true,
            is_hellfire: false,
            is_vanilla: false,
            force_hellfire: false,
        }
    }

    /// Creates the state of vanilla mode (original behaviour).
    pub fn vanilla() -> (s: Self)
        ensures
            s == (GameModeState { is_vanilla: true, ..Self::cleared() }),
    {
        GameModeState {
            run_game: false,
            is_spawn: false,
            is_hellfire: false,
            is_vanilla: true,
            force_hellfire: false,
        }
    }

    /// Whether this is the full version (not shareware).
    pub fn is_full_game(&self) -> (b: bool)
        ensures
            b == !self.is_spawn,
    {
        !self.is_spawn
    }

    /// Whether quality-of-life features are enabled.
    pub fn has_qol_features(&self) -> (b: bool)
        ensures
            b == !self.is_vanilla,
    {
        !self.is_vanilla
    }

    /// Whether Hellfire content is available.
    pub fn has_hellfire_content(&self) -> (b: bool)
        ensures
            b == (self.is_hellfire || self.force_hellfire),
    {
        self.is_hellfire || self.force_hellfire
    }

    /// Sets the shareware/spawn flag.
    pub fn set_spawn(&mut self, spawn: bool)
        ensures
            *final(self) == (GameModeState { is_spawn: spawn, ..*old(self) }),
    {
        self.is_spawn = spawn;
    }

    /// Sets the Hellfire flag.
    pub fn set_hellfire(&mut self, hellfire: bool)
        ensures
            *final(self) == (GameModeState { is_hellfire: hellfire, ..*old(self) }),
    {
        self.is_hellfire = hellfire;
    }

    /// Sets the vanilla flag.
    pub fn set_vanilla(&mut self, vanilla: bool)
        ensures
            *final(self) == (GameModeState { is_vanilla: vanilla, ..*old(self) }),
    {
        self.is_vanilla = vanilla;
    }

    /// Sets the running flag.
    pub fn set_running(&mut self, running: bool)
        ensures
            *final(self) == (GameModeState { run_game: running, ..*old(self) }),
    {
        self.run_game = running;
    }

    /// Starts the game.
    pub fn start(&mut self)
        ensures
            *final(self) == (GameModeState { run_game: true, ..*old(self) }),
    {
        self.run_game = true;
    }

    /// Stops the game.
    pub fn stop(&mut self)
        ensures
            *final(self) == (GameModeState { run_game: false, ..*old(self) }),
    {
        self.run_game = false;
    }
}

impl Default for GameModeState {
    fn default() -> (s: Self)
        ensures
            s == Self::cleared(),
    {
        Self::new()
    }
}

/// Owner of the game mode state of a running program.
#[derive(Debug)]
pub struct GlobalGameMode {
    pub(crate) state: GameModeState,
}

impl GlobalGameMode {
    /// The state held.
    pub closed spec fn spec_state(&self) -> GameModeState {
        self.state
    }

    /// Creates a holder of the cleared state.
    pub fn new() -> (g: Self)
        ensures
            g.spec_state() == GameModeState::cleared(),
    {
        GlobalGameMode { state: GameModeState::new() }
    }

    /// The current state.
    pub fn state(&self) -> (s: &GameModeState)
        ensures
            *s == self.spec_state(),
    {
        &self.state
    }

    /// Mutable access to the current state.
    pub fn state_mut(&mut self) -> (s: &mut GameModeState)
        ensures
            *s == old(self).spec_state(),
            final(self).spec_state() == *final(s),
    {
        &mut self.state
    }

    /// Whether the game runs.
    pub fn is_running(&self) -> (b: bool)
        ensures
            b == self.spec_state().run_game,
    {
        self.state.run_game
    }

    /// Whether spawn mode is on.
    pub fn is_spawn(&self) -> (b: bool)
        ensures
            b == self.spec_state().is_spawn,
    {
        self.state.is_spawn
    }

    /// Whether Hellfire is on.
    pub fn is_hellfire(&self) -> (b: bool)
        ensures
            b == self.spec_state().is_hellfire,
    {
        self.state.is_hellfire
    }

    /// Whether vanilla mode is on.
    pub fn is_vanilla(&self) -> (b: bool)
        ensures
            b == self.spec_state().is_vanilla,
    {
        self.state.is_vanilla
    }
}

impl Default for GlobalGameMode {
    fn default() -> (g: Self)
        ensures
            g.spec_state() == GameModeState::cleared(),
    {
        Self::new()
    }
}

/// Game version information.
#[derive(Debug, Clone, PartialEq, Eq)]
pub struct GameVersion {
    /// Major version number.
    pub major: u8,
    /// Minor version number.
    pub minor: u8,
    /// Patch version number.
    pub patch: u8,
    /// Version string.
    pub string: &'static str,
}

impl GameVersion {
    /// The DevilutionX version.
    pub fn devilutionx() -> (v: Self)
        ensures
            v.major == 1 && v.minor == 5 && v.patch == 3,
            v.string@ == "1.5.3"@,
    {
        GameVersion { major: 1, minor: 5, patch: 3, string: "1.5.3" }
    }

    /// The original Diablo version.
    pub fn diablo_original() -> (v: Self)
        ensures
            v.major == 1 && v.minor == 0 && v.patch == 9,
            v.string@ == "1.09b"@,
    {
        GameVersion { major: 1, minor: 0, patch: 9, string: "1.09b" }
    }

    /// The Hellfire version.
    pub fn hellfire() -> (v: Self)
        ensures
            v.major == 1 && v.minor == 0 && v.patch == 1,
            v.string@ == "1.01"@,
    {
        GameVersion { major: 1, minor: 0, patch: 1, string: "1.01" }
    }
}

} // verus!
