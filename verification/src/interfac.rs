//! Load screens: which cutscene shows for a level change, and the progress
//! bar drawn while a level loads.

use vstd::prelude::*;
use std::time::{Duration, Instant};
use crate::clock::{instant_now, instant_elapsed, duration_as_nanos};

verus! {

/// Highest progress value.
pub const MAX_PROGRESS: u32 = 534;

/// Progress gained per step.
pub const PROGRESS_STEP_SIZE: u32 = 23;

/// Height of the progress bar in pixels.
pub const PROGRESS_HEIGHT: i32 = 22;

/// Interface modes, the custom events of the load screen.
#[derive(Debug, Clone, Copy, PartialEq, Eq, Structural)]
pub enum InterfaceMode {
    /// Go to the next level.
    DiabNextLevel,
    /// Go to the previous level.
    DiabPrevLevel,
    /// Return to a level.
    DiabReturnLevel,
    /// Enter a set (quest) level.
    DiabSetLevel,
    /// Warp through a portal.
    DiabWarpLevel,
    /// Town warp down.
    DiabTownWarp,
    /// Town warp up.
    DiabTownWarpUp,
    /// Return to town.
    DiabReTown,
    /// New game.
    DiabNewGame,
    /// Load game.
    DiabLoadGame,
    /// Progress update.
    Progress,
    /// Error event.
    Error,
    /// Done event.
    Done,
}

/// The number of a mode, in declaration order from 0.
pub open spec fn mode_number(m: InterfaceMode) -> u8 {
    match m {
        InterfaceMode::DiabNextLevel => 0,
        InterfaceMode::DiabPrevLevel => 1,
        InterfaceMode::DiabReturnLevel => 2,
        InterfaceMode::DiabSetLevel => 3,
        InterfaceMode::DiabWarpLevel => 4,
        InterfaceMode::DiabTownWarp => 5,
        InterfaceMode::DiabTownWarpUp => 6,
        InterfaceMode::DiabReTown => 7,
        InterfaceMode::DiabNewGame => 8,
        InterfaceMode::DiabLoadGame => 9,
        InterfaceMode::Progress => 10,
        InterfaceMode::Error => 11,
        InterfaceMode::Done => 12,
    }
}

/// The mode numbered `v`, if any.
pub open spec fn mode_from_number(v: u8) -> Option<InterfaceMode> {
    if v == 0 {
        Some(InterfaceMode::DiabNextLevel)
    } else if v == 1 {
        Some(InterfaceMode::DiabPrevLevel)
    } else if v == 2 {
        Some(InterfaceMode::DiabReturnLevel)
    } else if v == 3 {
        Some(InterfaceMode::DiabSetLevel)
    } else if v == 4 {
        Some(InterfaceMode::DiabWarpLevel)
    } else if v == 5 {
        Some(InterfaceMode::DiabTownWarp)
    } else if v == 6 {
        Some(InterfaceMode::DiabTownWarpUp)
    } else if v == 7 {
        Some(InterfaceMode::DiabReTown)
    } else if v == 8 {
        Some(InterfaceMode::DiabNewGame)
    } else if v == 9 {
        Some(InterfaceMode::DiabLoadGame)
    } else if v == 10 {
        Some(InterfaceMode::Progress)
    } else if v == 11 {
        Some(InterfaceMode::Error)
    } else if v == 12 {
        Some(InterfaceMode::Done)
    } else {
        None
    }
}

impl InterfaceMode {
    /// The first mode.
    pub const FIRST: Self = Self::DiabNextLevel;

    /// The last mode.
    pub const LAST: Self = Self::Done;

    /// Whether this mode changes the level.
    pub fn is_level_transition(&self) -> (b: bool)
        ensures
            b == (mode_number(*self) <= 7),
    {
        match self {
            Self::DiabNextLevel | Self::DiabPrevLevel | Self::DiabReturnLevel | Self::DiabSetLevel
            | Self::DiabWarpLevel | Self::DiabTownWarp | Self::DiabTownWarpUp | Self::DiabReTown => {
                true
            },
            _ => false,
        }
    }

    /// Whether this mode starts a game.
    pub fn is_game_start(&self) -> (b: bool)
        ensures
            b == (*self == Self::DiabNewGame || *self == Self::DiabLoadGame),
    {
        match self {
            Self::DiabNewGame | Self::DiabLoadGame => true,
            _ => false,
        }
    }

    /// Whether this mode is an asynchronous event.
    pub fn is_async_event(&self) -> (b: bool)
        ensures
            b == (*self == Self::Progress || *self == Self::Error || *self == Self::Done),
    {
        match self {
            Self::Progress | Self::Error | Self::Done => true,
            _ => false,
        }
    }
}

impl TryFrom<u8> for InterfaceMode {
    type Error = ();

    fn try_from(value: u8) -> (r: Result<Self, ()>) {
        match value {
            0 => Ok(Self::DiabNextLevel),
            1 => Ok(Self::DiabPrevLevel),
            2 => Ok(Self::DiabReturnLevel),
            3 => Ok(Self::DiabSetLevel),
            4 => Ok(Self::DiabWarpLevel),
            5 => Ok(Self::DiabTownWarp),
            6 => Ok(Self::DiabTownWarpUp),
            7 => Ok(Self::DiabReTown),
            8 => Ok(Self::DiabNewGame),
            9 => Ok(Self::DiabLoadGame),
            10 => Ok(Self::Progress),
            11 => Ok(Self::Error),
            12 => Ok(Self::Done),
            _ => Err(()),
        }
    }
}

impl vstd::std_specs::convert::TryFromSpecImpl<u8> for InterfaceMode {
    open spec fn obeys_try_from_spec() -> bool {
        true
    }

    open spec fn try_from_spec(v: u8) -> Result<Self, ()> {
        match mode_from_number(v) {
            Some(m) => Ok(m),
            None => Err(()),
        }
    }
}

/// Converting a mode to its number and back gives the mode.
pub proof fn lemma_mode_number_roundtrip(m: InterfaceMode)
    ensures
        mode_from_number(mode_number(m)) == Some(m),
{
}

/// Every number below 13 names a mode, and that mode has that number.
pub proof fn lemma_number_mode_roundtrip(v: u8)
    ensures
        v < 13 <==> mode_from_number(v) is Some,
        mode_from_number(v) matches Some(m) ==> mode_number(m) == v,
{
}

/// Cutscenes shown on load screens.
#[derive(Debug, Clone, Copy, PartialEq, Eq, Structural)]
pub enum Cutscene {
    /// Game start.
    Start,
    /// Town.
    Town,
    /// Cathedral.
    Level1,
    /// Catacombs.
    Level2,
    /// Caves.
    Level3,
    /// Hell.
    Level4,
    /// Crypt.
    Level5,
    /// Nest.
    Level6,
    /// Blue portal.
    Portal,
    /// Red portal.
    PortalRed,
    /// Gate to Diablo.
    Gate,
}

impl Cutscene {
    /// The image file of this cutscene.
    pub fn cel_path(&self) -> (p: &'static str)
        ensures
            p@ == (match *self {
                Cutscene::Start => "gendata\\cutstart"@,
                Cutscene::Town => "gendata\\cuttt"@,
                Cutscene::Level1 => "gendata\\cutl1d"@,
                Cutscene::Level2 => "gendata\\cut2"@,
                Cutscene::Level3 => "gendata\\cut3"@,
                Cutscene::Level4 => "gendata\\cut4"@,
                Cutscene::Level5 => "nlevels\\cutl5"@,
                Cutscene::Level6 => "nlevels\\cutl6"@,
                Cutscene::Portal => "gendata\\cutportl"@,
                Cutscene::PortalRed => "gendata\\cutportr"@,
                Cutscene::Gate => "gendata\\cutgate"@,
            }),
    {
        match self {
            Self::Start => "gendata\\cutstart",
            Self::Town => "gendata\\cuttt",
            Self::Level1 => "gendata\\cutl1d",
            Self::Level2 => "gendata\\cut2",
            Self::Level3 => "gendata\\cut3",
            Self::Level4 => "gendata\\cut4",
            Self::Level5 => "nlevels\\cutl5",
            Self::Level6 => "nlevels\\cutl6",
            Self::Portal => "gendata\\cutportl",
            Self::PortalRed => "gendata\\cutportr",
            Self::Gate => "gendata\\cutgate",
        }
    }

    /// The palette file of this cutscene.
    pub fn pal_path(&self) -> (p: &'static str)
        ensures
            p@ == (match *self {
                Cutscene::Start => "gendata\\cutstart.pal"@,
                Cutscene::Town => "gendata\\cuttt.pal"@,
                Cutscene::Level1 => "gendata\\cutl1d.pal"@,
                Cutscene::Level2 => "gendata\\cut2.pal"@,
                Cutscene::Level3 => "gendata\\cut3.pal"@,
                Cutscene::Level4 => "gendata\\cut4.pal"@,
                Cutscene::Level5 => "nlevels\\cutl5.pal"@,
                Cutscene::Level6 => "nlevels\\cutl6.pal"@,
                Cutscene::Portal => "gendata\\cutportl.pal"@,
                Cutscene::PortalRed => "gendata\\cutportr.pal"@,
                Cutscene::Gate => "gendata\\cutgate.pal"@,
            }),
    {
        match self {
            Self::Start => "gendata\\cutstart.pal",
            Self::Town => "gendata\\cuttt.pal",
            Self::Level1 => "gendata\\cutl1d.pal",
            Self::Level2 => "gendata\\cut2.pal",
            Self::Level3 => "gendata\\cut3.pal",
            Self::Level4 => "gendata\\cut4.pal",
            Self::Level5 => "nlevels\\cutl5.pal",
            Self::Level6 => "nlevels\\cutl6.pal",
            Self::Portal => "gendata\\cutportl.pal",
            Self::PortalRed => "gendata\\cutportr.pal",
            Self::Gate => "gendata\\cutgate.pal",
        }
    }

    /// The widescreen image file of this cutscene.
    pub fn widescreen_clx_path(&self) -> (p: &'static str)
        ensures
            p@ == (match *self {
                Cutscene::Start => "gendata\\cutstartw.clx"@,
                Cutscene::Town => "gendata\\cutttw.clx"@,
                Cutscene::Level1 => "gendata\\cutl1dw.clx"@,
                Cutscene::Level2 => "gendata\\cut2w.clx"@,
                Cutscene::Level3 => "gendata\\cut3w.clx"@,
                Cutscene::Level4 => "gendata\\cut4w.clx"@,
                Cutscene::Level5 => "nlevels\\cutl5w.clx"@,
                Cutscene::Level6 => "nlevels\\cutl6w.clx"@,
                Cutscene::Portal => "gendata\\cutportlw.clx"@,
                Cutscene::PortalRed => "gendata\\cutportrw.clx"@,
                Cutscene::Gate => "gendata\\cutgatew.clx"@,
            }),
    {
        match self {
            Self::Start => "gendata\\cutstartw.clx",
            Self::Town => "gendata\\cutttw.clx",
            Self::Level1 => "gendata\\cutl1dw.clx",
            Self::Level2 => "gendata\\cut2w.clx",
            Self::Level3 => "gendata\\cut3w.clx",
            Self::Level4 => "gendata\\cut4w.clx",
            Self::Level5 => "nlevels\\cutl5w.clx",
            Self::Level6 => "nlevels\\cutl6w.clx",
            Self::Portal => "gendata\\cutportlw.clx",
            Self::PortalRed => "gendata\\cutportrw.clx",
            Self::Gate => "gendata\\cutgatew.clx",
        }
    }

    /// The progress bar (position and colour) used with this cutscene.
    pub open spec fn spec_progress_id(self) -> usize {
        match self {
            Cutscene::Level1 => 0,
            Cutscene::Level2 => 2,
            _ => 1,
        }
    }

    /// The progress bar (position and colour) used with this cutscene.
    pub fn progress_id(&self) -> (id: usize)
        ensures
            id == self.spec_progress_id(),
            id < 3,
    {
        match self {
            Self::Level1 => 0,
            Self::Start | Self::Town | Self::Level3 | Self::Level4 | Self::Level5 | Self::Level6
            | Self::Portal | Self::PortalRed | Self::Gate => 1,
            Self::Level2 => 2,
        }
    }
}

/// Dungeon types, for the choice of cutscene.
#[derive(Debug, Clone, Copy, PartialEq, Eq, Structural)]
pub enum DungeonType {
    /// Town.
    Town,
    /// Cathedral.
    Cathedral,
    /// Catacombs.
    Catacombs,
    /// Caves.
    Caves,
    /// Hell.
    Hell,
    /// Nest.
    Nest,
    /// Crypt.
    Crypt,
}

impl DungeonType {
    /// The cutscene of this dungeon type.
    pub open spec fn spec_to_cutscene(self) -> Cutscene {
        match self {
            DungeonType::Town => Cutscene::Town,
            DungeonType::Cathedral => Cutscene::Level1,
            DungeonType::Catacombs => Cutscene::Level2,
            DungeonType::Caves => Cutscene::Level3,
            DungeonType::Hell => Cutscene::Level4,
            DungeonType::Nest => Cutscene::Level6,
            DungeonType::Crypt => Cutscene::Level5,
        }
    }

    /// The cutscene of this dungeon type.
    pub fn to_cutscene(&self) -> (c: Cutscene)
        ensures
            c == self.spec_to_cutscene(),
    {
        match self {
            Self::Town => Cutscene::Town,
            Self::Cathedral => Cutscene::Level1,
            Self::Catacombs => Cutscene::Level2,
            Self::Caves => Cutscene::Level3,
            Self::Hell => Cutscene::Level4,
            Self::Nest => Cutscene::Level6,
            Self::Crypt => Cutscene::Level5,
        }
    }
}

/// Palette colour of each progress bar.
pub const BAR_COLORS: [u8; 3] = [138, 43, 254];

/// Position `(x, y)` of each progress bar.
pub const BAR_POSITIONS: [[i32; 2]; 3] = [[53, 37], [53, 421], [53, 37]];

/// Colour of progress bar `id`.
pub open spec fn bar_color(id: int) -> u8 {
    if id == 0 { 138 } else if id == 1 { 43 } else { 254 }
}

/// Position of progress bar `id`.
pub open spec fn bar_position(id: int) -> (i32, i32) {
    if id == 1 { (53, 421) } else { (53, 37) }
}

/// The state of the progress screen.
#[derive(Debug)]
pub struct ProgressState {
    /// The moment loading started.
    pub load_started_at: Option<Instant>,
    /// Whether drawing is skipped (loading has just begun).
    pub skip_rendering: bool,
    /// Whether loading is done.
    pub done: bool,
    /// The progress drawn so far.
    pub drawn_progress: u32,
    /// The palette shown.
    pub palette: [u32; 256],
}

impl Default for ProgressState {
    fn default() -> (s: Self)
        ensures
            s.load_started_at is None,
            s.skip_rendering,
            !s.done,
            s.drawn_progress == 0,
            forall|i: int| 0 <= i < 256 ==> s.palette@[i] == 0,
    {
        ProgressState {
            load_started_at: None,
            skip_rendering: true,
            done: false,
            drawn_progress: 0,
            palette: [0u32; 256],
        }
    }
}

impl ProgressState {
    /// A fresh state: not started, skipping drawing, not done.
    pub fn new() -> (s: Self)
        ensures
            s.load_started_at is None,
            s.skip_rendering,
            !s.done,
            s.drawn_progress == 0,
            forall|i: int| 0 <= i < 256 ==> s.palette@[i] == 0,
    {
        Self::default()
    }

    /// Starts a new load now.
    pub fn reset(&mut self)
        ensures
            final(self).load_started_at is Some,
            final(self).skip_rendering,
            !final(self).done,
            final(self).drawn_progress == 0,
            final(self).palette == old(self).palette,
    {
        self.load_started_at = Some(instant_now());
        self.skip_rendering = true;
        self.done = false;
        self.drawn_progress = 0;
    }

    /// The time since the load started, if it has.
    pub fn elapsed(&self) -> (d: Option<Duration>)
        ensures
            d is Some == self.load_started_at is Some,
    {
        match &self.load_started_at {
            Some(t) => Some(instant_elapsed(t)),
            None => None,
        }
    }
}

/// Progress bar rectangle.
#[derive(Debug, Clone, Copy)]
pub struct ProgressBarRect {
    /// Left edge.
    pub x: i32,
    /// Top edge.
    pub y: i32,
    /// Width.
    pub width: i32,
    /// Height.
    pub height: i32,
    /// Palette colour.
    pub color_index: u8,
}

/// Cutscene description.
#[derive(Debug, Clone)]
pub struct CutsceneInfo {
    /// The cutscene.
    pub cutscene: Cutscene,
    /// Its image file.
    pub cel_path: String,
    /// Its palette file.
    pub pal_path: String,
    /// Its widescreen image file.
    pub widescreen_path: String,
    /// Its progress bar.
    pub progress_id: usize,
}

/// The dungeon type of level `level`: town at 0, then four levels each of
/// cathedral, catacombs, caves and hell, then (with Hellfire, up to 24) the
/// crypt to 20 and the nest above; anything else counts as cathedral.
pub open spec fn level_type(level: u8, hellfire: bool) -> DungeonType {
    if level == 0 {
        DungeonType::Town
    } else if level <= 4 {
        DungeonType::Cathedral
    } else if level <= 8 {
        DungeonType::Catacombs
    } else if level <= 12 {
        DungeonType::Caves
    } else if level <= 16 {
        DungeonType::Hell
    } else if hellfire && level <= 25 {
        if level <= 20 { DungeonType::Crypt } else { DungeonType::Nest }
    } else {
        DungeonType::Cathedral
    }
}

/// The load-screen manager.
pub struct InterfaceManager {
    /// Current progress.
    pub progress: u32,
    /// Which progress bar is used.
    pub progress_id: usize,
    /// Whether the progress screen shows.
    pub is_progress: bool,
    /// Progress screen state.
    pub state: ProgressState,
    /// How long drawing is skipped, in milliseconds.
    pub skip_threshold_ms: u32,
    /// Whether this is a multiplayer game.
    pub is_multiplayer: bool,
    /// Whether Hellfire is on.
    pub is_hellfire: bool,
    /// Current level.
    pub current_level: u8,
    /// Set level number.
    pub set_level_num: u8,
    /// Set level type.
    pub set_level_type: Option<DungeonType>,
}

impl InterfaceManager {
    /// The cutscene for `mode` given the levels of this manager.
    pub open spec fn spec_pick_cutscene(&self, mode: InterfaceMode) -> Cutscene {
        match mode {
            InterfaceMode::DiabLoadGame | InterfaceMode::DiabNewGame => Cutscene::Start,
            InterfaceMode::DiabReTown => Cutscene::Town,
            InterfaceMode::DiabNextLevel
            | InterfaceMode::DiabPrevLevel
            | InterfaceMode::DiabTownWarp
            | InterfaceMode::DiabTownWarpUp => {
                if self.current_level == 1 && mode == InterfaceMode::DiabNextLevel {
                    Cutscene::Town
                } else if self.current_level == 16 && mode == InterfaceMode::DiabNextLevel {
                    Cutscene::Gate
                } else {
                    level_type(self.current_level, self.is_hellfire).spec_to_cutscene()
                }
            },
            InterfaceMode::DiabWarpLevel => Cutscene::Portal,
            InterfaceMode::DiabSetLevel | InterfaceMode::DiabReturnLevel => {
                if self.set_level_num == 6 {
                    Cutscene::Level2
                } else if self.set_level_num == 9 {
                    Cutscene::PortalRed
                } else if self.set_level_num >= 50 {
                    if mode == InterfaceMode::DiabSetLevel {
                        match self.set_level_type {
                            Some(t) => t.spec_to_cutscene(),
                            None => Cutscene::Level1,
                        }
                    } else {
                        Cutscene::Town
                    }
                } else {
                    Cutscene::Level1
                }
            },
            _ => Cutscene::Level1,
        }
    }

    /// A manager with no progress screen, bar 1, at the town.
    pub fn new() -> (m: Self)
        ensures
            m.progress == 0,
            m.progress_id == 1,
            !m.is_progress,
            m.state.load_started_at is None,
            m.state.skip_rendering,
            !m.state.done,
            m.state.drawn_progress == 0,
            m.skip_threshold_ms == 0,
            !m.is_multiplayer,
            !m.is_hellfire,
            m.current_level == 0,
            m.set_level_num == 0,
            m.set_level_type is None,
    {
        InterfaceManager {
            progress: 0,
            progress_id: 1,
            is_progress: false,
            state: ProgressState::new(),
            skip_threshold_ms: 0,
            is_multiplayer: false,
            is_hellfire: false,
            current_level: 0,
            set_level_num: 0,
            set_level_type: None,
        }
    }

    /// Current progress.
    pub fn progress(&self) -> (p: u32)
        ensures
            p == self.progress,
    {
        self.progress
    }

    /// The progress bar in use.
    pub fn progress_id(&self) -> (id: usize)
        ensures
            id == self.progress_id,
    {
        self.progress_id
    }

    /// Whether the progress screen shows.
    pub fn is_progress(&self) -> (b: bool)
        ensures
            b == self.is_progress,
    {
        self.is_progress
    }

    /// Sets how long drawing is skipped.
    pub fn set_skip_threshold(&mut self, ms: u32)
        ensures
            final(self).skip_threshold_ms == ms,
            final(self).progress == old(self).progress,
            final(self).is_progress == old(self).is_progress,
            final(self).current_level == old(self).current_level,
    {
        self.skip_threshold_ms = ms;
    }

    /// Sets the multiplayer flag.
    pub fn set_multiplayer(&mut self, multiplayer: bool)
        ensures
            final(self).is_multiplayer == multiplayer,
            final(self).progress == old(self).progress,
            final(self).is_progress == old(self).is_progress,
            final(self).current_level == old(self).current_level,
    {
        self.is_multiplayer = multiplayer;
    }

    /// Sets the Hellfire flag.
    pub fn set_hellfire(&mut self, hellfire: bool)
        ensures
            final(self).is_hellfire == hellfire,
            final(self).progress == old(self).progress,
            final(self).is_progress == old(self).is_progress,
            final(self).current_level == old(self).current_level,
    {
        self.is_hellfire = hellfire;
    }

    /// Sets the current level.
    pub fn set_current_level(&mut self, level: u8)
        ensures
            final(self).current_level == level,
            final(self).is_hellfire == old(self).is_hellfire,
            final(self).progress == old(self).progress,
            final(self).is_progress == old(self).is_progress,
            final(self).set_level_num == old(self).set_level_num,
            final(self).set_level_type == old(self).set_level_type,
    {
        self.current_level = level;
    }

    /// Sets the set level and its type.
    pub fn set_set_level(&mut self, num: u8, level_type: DungeonType)
        ensures
            final(self).set_level_num == num,
            final(self).set_level_type == Some(level_type),
            final(self).current_level == old(self).current_level,
            final(self).is_hellfire == old(self).is_hellfire,
            final(self).progress == old(self).progress,
            final(self).is_progress == old(self).is_progress,
    {
        self.set_level_num = num;
        self.set_level_type = Some(level_type);
    }

    /// The dungeon type of level `level`.
    pub fn get_level_type(&self, level: u8) -> (t: DungeonType)
        ensures
            t == level_type(level, self.is_hellfire),
    {
        if level == 0 {
            return DungeonType::Town;
        }
        let num_levels: u8 = if self.is_hellfire { 25 } else { 17 };
        if 1 <= level && level <= 4 {
            DungeonType::Cathedral
        } else if 5 <= level && level <= 8 {
            DungeonType::Catacombs
        } else if 9 <= level && level <= 12 {
            DungeonType::Caves
        } else if 13 <= level && level <= 16 {
            DungeonType::Hell
        } else if level <= num_levels && self.is_hellfire {
            if level <= 20 {
                DungeonType::Crypt
            } else {
                DungeonType::Nest
            }
        } else {
            DungeonType::Cathedral
        }
    }

    /// The cutscene shown for `mode`.
    pub fn pick_cutscene(&self, mode: InterfaceMode) -> (c: Cutscene)
        ensures
            c == self.spec_pick_cutscene(mode),
    {
        match mode {
            InterfaceMode::DiabLoadGame | InterfaceMode::DiabNewGame => Cutscene::Start,
            InterfaceMode::DiabReTown => Cutscene::Town,
            InterfaceMode::DiabNextLevel
            | InterfaceMode::DiabPrevLevel
            | InterfaceMode::DiabTownWarp
            | InterfaceMode::DiabTownWarpUp => {
                let level = self.current_level;
                if level == 1 && mode == InterfaceMode::DiabNextLevel {
                    return Cutscene::Town;
                }
                if level == 16 && mode == InterfaceMode::DiabNextLevel {
                    return Cutscene::Gate;
                }
                self.get_level_type(level).to_cutscene()
            },
            InterfaceMode::DiabWarpLevel => Cutscene::Portal,
            InterfaceMode::DiabSetLevel | InterfaceMode::DiabReturnLevel => {
                if self.set_level_num == 6 {
                    return Cutscene::Level2;
                }
                if self.set_level_num == 9 {
                    return Cutscene::PortalRed;
                }
                if self.is_arena_level(self.set_level_num) {
                    if mode == InterfaceMode::DiabSetLevel {
                        let t = match self.set_level_type {
                            Some(t) => t,
                            None => DungeonType::Cathedral,
                        };
                        return t.to_cutscene();
                    }
                    return Cutscene::Town;
                }
                Cutscene::Level1
            },
            _ => Cutscene::Level1,
        }
    }

    /// Arena levels are numbered from 50 on.
    fn is_arena_level(&self, level: u8) -> (b: bool)
        ensures
            b == (level >= 50),
    {
        level >= 50
    }

    /// Adds `steps` steps of progress, up to the maximum, while the progress
    /// screen shows; returns whether the progress changed.
    pub fn inc_progress(&mut self, steps: u32) -> (changed: bool)
        requires
            old(self).is_progress ==> old(self).progress + PROGRESS_STEP_SIZE * steps
                <= u32::MAX,
        ensures
            !old(self).is_progress ==> !changed && final(self).progress == old(self).progress,
            old(self).is_progress ==> {
                let raw = old(self).progress + PROGRESS_STEP_SIZE * steps;
                &&& final(self).progress == (if raw > MAX_PROGRESS {
                    MAX_PROGRESS as int
                } else {
                    raw
                })
                &&& changed == (final(self).progress != old(self).progress)
            },
            final(self).is_progress == old(self).is_progress,
            final(self).progress_id == old(self).progress_id,
            final(self).current_level == old(self).current_level,
    {
        if !self.is_progress {
            return false;
        }
        let prev_progress = self.progress;
        self.progress = self.progress + PROGRESS_STEP_SIZE * steps;
        if self.progress > MAX_PROGRESS {
            self.progress = MAX_PROGRESS;
        }
        self.progress != prev_progress
    }

    /// Adds the whole steps left before the maximum, while the progress
    /// screen shows.
    pub fn complete_progress(&mut self)
        ensures
            !old(self).is_progress ==> final(self).progress == old(self).progress,
            old(self).is_progress && old(self).progress < MAX_PROGRESS ==> final(self).progress
                == old(self).progress + PROGRESS_STEP_SIZE * ((MAX_PROGRESS - old(self).progress) / PROGRESS_STEP_SIZE as int),
            old(self).is_progress && old(self).progress < MAX_PROGRESS ==> MAX_PROGRESS
                - PROGRESS_STEP_SIZE < final(self).progress <= MAX_PROGRESS,
            old(self).is_progress && old(self).progress >= MAX_PROGRESS ==> final(self).progress
                == old(self).progress,
            final(self).is_progress == old(self).is_progress,
            final(self).progress_id == old(self).progress_id,
    {
        if !self.is_progress {
            return;
        }
        if self.progress < MAX_PROGRESS {
            let remaining_steps = (MAX_PROGRESS - self.progress) / PROGRESS_STEP_SIZE;
            proof {
                let r = MAX_PROGRESS - self.progress;
                assert(PROGRESS_STEP_SIZE * (r / 23) <= r && r - PROGRESS_STEP_SIZE * (r / 23)
                    < 23) by (nonlinear_arith)
                    requires
                        r >= 0,
                ;
            }
            self.inc_progress(remaining_steps);
        }
    }

    /// Shows the progress screen from zero, starting the clock, with the
    /// progress bar of the cutscene for `mode`.
    pub fn start_progress(&mut self, mode: InterfaceMode)
        ensures
            final(self).is_progress,
            final(self).progress == 0,
            final(self).progress_id == old(self).spec_pick_cutscene(mode).spec_progress_id(),
            final(self).state.load_started_at is Some,
            final(self).state.skip_rendering,
            !final(self).state.done,
            final(self).state.drawn_progress == 0,
            final(self).current_level == old(self).current_level,
            final(self).is_hellfire == old(self).is_hellfire,
            final(self).set_level_num == old(self).set_level_num,
            final(self).set_level_type == old(self).set_level_type,
            final(self).skip_threshold_ms == old(self).skip_threshold_ms,
    {
        self.is_progress = true;
        self.progress = 0;
        self.state.reset();
        let cutscene = self.pick_cutscene(mode);
        self.progress_id = cutscene.progress_id();
    }

    /// Hides the progress screen and marks loading done.
    pub fn end_progress(&mut self)
        ensures
            !final(self).is_progress,
            final(self).state.done,
            final(self).progress == old(self).progress,
            final(self).progress_id == old(self).progress_id,
            final(self).current_level == old(self).current_level,
    {
        self.is_progress = false;
        self.state.done = true;
    }

    /// Given the time since loading started (`None` before it started),
    /// decides whether drawing is still skipped: it stops being skipped,
    /// for good, once more than the threshold has passed.
    pub fn skip_rendering_after(&mut self, elapsed_nanos: Option<u128>) -> (skip: bool)
        ensures
            !old(self).state.skip_rendering ==> !skip && final(self).state.skip_rendering
                == old(self).state.skip_rendering,
            old(self).state.skip_rendering ==> {
                let passed = match elapsed_nanos {
                    Some(n) => n > old(self).skip_threshold_ms * 1_000_000,
                    None => false,
                };
                &&& skip == !passed
                &&& final(self).state.skip_rendering == !passed
            },
            final(self).state.load_started_at == old(self).state.load_started_at,
            final(self).state.done == old(self).state.done,
            final(self).progress == old(self).progress,
            final(self).is_progress == old(self).is_progress,
            final(self).skip_threshold_ms == old(self).skip_threshold_ms,
    {
        if !self.state.skip_rendering {
            return false;
        }
        match elapsed_nanos {
            Some(n) => {
                let threshold = (self.skip_threshold_ms as u128) * 1_000_000u128;
                if n > threshold {
                    self.state.skip_rendering = false;
                    return false;
                }
            },
            None => {},
        }
        true
    }

    /// Whether drawing is still skipped; it stops being skipped once more
    /// than the threshold has passed since loading started.
    pub fn check_skip_rendering(&mut self) -> (skip: bool)
        ensures
            !old(self).state.skip_rendering ==> !skip && !final(self).state.skip_rendering,
            old(self).state.skip_rendering && old(self).state.load_started_at is None ==> skip
                && final(self).state.skip_rendering,
            skip == final(self).state.skip_rendering,
            final(self).state.load_started_at == old(self).state.load_started_at,
            final(self).progress == old(self).progress,
            final(self).is_progress == old(self).is_progress,
            final(self).skip_threshold_ms == old(self).skip_threshold_ms,
    {
        let elapsed = match self.state.elapsed() {
            Some(d) => Some(duration_as_nanos(&d)),
            None => None,
        };
        self.skip_rendering_after(elapsed)
    }

    /// The progress bar rectangle, offset by `(ui_x, ui_y)`.
    pub fn get_progress_bar_rect(&self, ui_x: i32, ui_y: i32) -> (r: ProgressBarRect)
        requires
            self.progress_id < 3,
            i32::MIN <= bar_position(self.progress_id as int).0 + ui_x <= i32::MAX,
            i32::MIN <= bar_position(self.progress_id as int).1 + ui_y <= i32::MAX,
        ensures
            r.x == bar_position(self.progress_id as int).0 + ui_x,
            r.y == bar_position(self.progress_id as int).1 + ui_y,
            r.width == self.progress as i32,
            r.height == PROGRESS_HEIGHT,
            r.color_index == bar_color(self.progress_id as int),
    {
        let pos = BAR_POSITIONS[self.progress_id];
        ProgressBarRect {
            x: pos[0] + ui_x,
            y: pos[1] + ui_y,
            width: self.progress as i32,
            height: PROGRESS_HEIGHT,
            color_index: BAR_COLORS[self.progress_id],
        }
    }

    /// The cutscene shown for `mode`, with its files and progress bar.
    pub fn get_cutscene_info(&self, mode: InterfaceMode) -> (info: CutsceneInfo)
        ensures
            info.cutscene == self.spec_pick_cutscene(mode),
            info.progress_id == info.cutscene.spec_progress_id(),
            info.cel_path@ == info.cutscene.cel_path_spec(),
            info.pal_path@ == info.cutscene.pal_path_spec(),
            info.widescreen_path@ == info.cutscene.widescreen_path_spec(),
    {
        let cutscene = self.pick_cutscene(mode);
        CutsceneInfo {
            cutscene,
            cel_path: cutscene.cel_path().to_owned(),
            pal_path: cutscene.pal_path().to_owned(),
            widescreen_path: cutscene.widescreen_clx_path().to_owned(),
            progress_id: cutscene.progress_id(),
        }
    }
}

impl Cutscene {
    /// The image file of this cutscene.
    pub open spec fn cel_path_spec(self) -> Seq<char> {
        match self {
            Cutscene::Start => "gendata\\cutstart"@,
            Cutscene::Town => "gendata\\cuttt"@,
            Cutscene::Level1 => "gendata\\cutl1d"@,
            Cutscene::Level2 => "gendata\\cut2"@,
            Cutscene::Level3 => "gendata\\cut3"@,
            Cutscene::Level4 => "gendata\\cut4"@,
            Cutscene::Level5 => "nlevels\\cutl5"@,
            Cutscene::Level6 => "nlevels\\cutl6"@,
            Cutscene::Portal => "gendata\\cutportl"@,
            Cutscene::PortalRed => "gendata\\cutportr"@,
            Cutscene::Gate => "gendata\\cutgate"@,
        }
    }

    /// The palette file of this cutscene.
    pub open spec fn pal_path_spec(self) -> Seq<char> {
        match self {
            Cutscene::Start => "gendata\\cutstart.pal"@,
            Cutscene::Town => "gendata\\cuttt.pal"@,
            Cutscene::Level1 => "gendata\\cutl1d.pal"@,
            Cutscene::Level2 => "gendata\\cut2.pal"@,
            Cutscene::Level3 => "gendata\\cut3.pal"@,
            Cutscene::Level4 => "gendata\\cut4.pal"@,
            Cutscene::Level5 => "nlevels\\cutl5.pal"@,
            Cutscene::Level6 => "nlevels\\cutl6.pal"@,
            Cutscene::Portal => "gendata\\cutportl.pal"@,
            Cutscene::PortalRed => "gendata\\cutportr.pal"@,
            Cutscene::Gate => "gendata\\cutgate.pal"@,
        }
    }

    /// The widescreen image file of this cutscene.
    pub open spec fn widescreen_path_spec(self) -> Seq<char> {
        match self {
            Cutscene::Start => "gendata\\cutstartw.clx"@,
            Cutscene::Town => "gendata\\cutttw.clx"@,
            Cutscene::Level1 => "gendata\\cutl1dw.clx"@,
            Cutscene::Level2 => "gendata\\cut2w.clx"@,
            Cutscene::Level3 => "gendata\\cut3w.clx"@,
            Cutscene::Level4 => "gendata\\cut4w.clx"@,
            Cutscene::Level5 => "nlevels\\cutl5w.clx"@,
            Cutscene::Level6 => "nlevels\\cutl6w.clx"@,
            Cutscene::Portal => "gendata\\cutportlw.clx"@,
            Cutscene::PortalRed => "gendata\\cutportrw.clx"@,
            Cutscene::Gate => "gendata\\cutgatew.clx"@,
        }
    }
}

impl Default for InterfaceManager {
    fn default() -> (m: Self)
        ensures
            m.progress == 0,
            m.progress_id == 1,
            !m.is_progress,
            m.current_level == 0,
            !m.is_hellfire,
    {
        Self::new()
    }
}

/// How a level is entered.
#[derive(Debug, Clone, Copy, PartialEq, Eq, Structural)]
pub enum EntryType {
    /// Main entry.
    Main,
    /// From the level below.
    Prev,
    /// Into a set level.
    SetLevel,
    /// Back from a set level.
    ReturnLevel,
    /// Through a portal.
    WarpLevel,
    /// Town warp down.
    TownWarpDown,
    /// Town warp up.
    TownWarpUp,
}

/// What a level load needs to know.
#[derive(Debug, Clone)]
pub struct LoadContext {
    /// The mode that caused the load.
    pub mode: InterfaceMode,
    /// How the level is entered.
    pub entry_type: EntryType,
    /// The level loaded.
    pub target_level: u8,
    /// Its dungeon type.
    pub target_level_type: DungeonType,
    /// Whether it is a set level.
    pub is_set_level: bool,
    /// The level to return to.
    pub return_level: u8,
    /// The type of the level to return to.
    pub return_level_type: DungeonType,
}

impl LoadContext {
    /// The entry, target level and set-level flag a mode leads to.
    pub open spec fn spec_entry(mode: InterfaceMode, m: &InterfaceManager) -> (EntryType, int, bool) {
        match mode {
            InterfaceMode::DiabNewGame | InterfaceMode::DiabLoadGame => (EntryType::Main, 0, false),
            InterfaceMode::DiabNextLevel => (EntryType::Main, m.current_level + 1, false),
            InterfaceMode::DiabPrevLevel => (EntryType::Prev, m.current_level - 1, false),
            InterfaceMode::DiabSetLevel => (EntryType::SetLevel, m.set_level_num as int, true),
            InterfaceMode::DiabReturnLevel => (
                EntryType::ReturnLevel,
                m.current_level as int,
                false,
            ),
            InterfaceMode::DiabWarpLevel => (EntryType::WarpLevel, m.current_level as int, false),
            InterfaceMode::DiabTownWarp => (
                EntryType::TownWarpDown,
                m.current_level as int,
                false,
            ),
            InterfaceMode::DiabTownWarpUp => (
                EntryType::TownWarpUp,
                m.current_level as int,
                false,
            ),
            InterfaceMode::DiabReTown => (EntryType::Main, m.current_level as int, false),
            _ => (EntryType::Main, 0, false),
        }
    }

    /// The load context for `mode`.
    pub fn from_mode(mode: InterfaceMode, manager: &InterfaceManager) -> (c: Self)
        requires
            mode == InterfaceMode::DiabNextLevel ==> manager.current_level < 255,
            mode == InterfaceMode::DiabPrevLevel ==> manager.current_level > 0,
        ensures
            c.mode == mode,
            c.entry_type == Self::spec_entry(mode, manager).0,
            c.target_level == Self::spec_entry(mode, manager).1,
            c.is_set_level == Self::spec_entry(mode, manager).2,
            c.target_level_type == (if c.is_set_level {
                match manager.set_level_type {
                    Some(t) => t,
                    None => DungeonType::Cathedral,
                }
            } else {
                level_type(c.target_level, manager.is_hellfire)
            }),
            c.return_level == 0,
            c.return_level_type == DungeonType::Town,
    {
        let (entry_type, target_level, is_set_level) = match mode {
            InterfaceMode::DiabNewGame | InterfaceMode::DiabLoadGame => (EntryType::Main, 0, false),
            InterfaceMode::DiabNextLevel => (EntryType::Main, manager.current_level + 1, false),
            InterfaceMode::DiabPrevLevel => (EntryType::Prev, manager.current_level - 1, false),
            InterfaceMode::DiabSetLevel => (EntryType::SetLevel, manager.set_level_num, true),
            InterfaceMode::DiabReturnLevel => (
                EntryType::ReturnLevel,
                manager.current_level,
                false,
            ),
            InterfaceMode::DiabWarpLevel => (EntryType::WarpLevel, manager.current_level, false),
            InterfaceMode::DiabTownWarp => (EntryType::TownWarpDown, manager.current_level, false),
            InterfaceMode::DiabTownWarpUp => (EntryType::TownWarpUp, manager.current_level, false),
            InterfaceMode::DiabReTown => (EntryType::Main, manager.current_level, false),
            _ => (EntryType::Main, 0, false),
        };
        let target_level_type = if is_set_level {
            match manager.set_level_type {
                Some(t) => t,
                None => DungeonType::Cathedral,
            }
        } else {
            manager.get_level_type(target_level)
        };
        LoadContext {
            mode,
            entry_type,
            target_level,
            target_level_type,
            is_set_level,
            return_level: 0,
            return_level_type: DungeonType::Town,
        }
    }
}

/// Adds `steps` steps of progress (see `InterfaceManager::inc_progress`).
pub fn inc_progress(manager: &mut InterfaceManager, steps: u32) -> (changed: bool)
    requires
        old(manager).is_progress ==> old(manager).progress + PROGRESS_STEP_SIZE * steps
            <= u32::MAX,
    ensures
        !old(manager).is_progress ==> !changed && final(manager).progress == old(manager).progress,
        old(manager).is_progress ==> {
            let raw = old(manager).progress + PROGRESS_STEP_SIZE * steps;
            &&& final(manager).progress == (if raw > MAX_PROGRESS {
                MAX_PROGRESS as int
            } else {
                raw
            })
            &&& changed == (final(manager).progress != old(manager).progress)
        },
        final(manager).is_progress == old(manager).is_progress,
{
    manager.inc_progress(steps)
}

/// Completes the progress (see `InterfaceManager::complete_progress`).
pub fn complete_progress(manager: &mut InterfaceManager)
    ensures
        !old(manager).is_progress ==> final(manager).progress == old(manager).progress,
        old(manager).is_progress && old(manager).progress < MAX_PROGRESS ==> MAX_PROGRESS
            - PROGRESS_STEP_SIZE < final(manager).progress <= MAX_PROGRESS,
        old(manager).is_progress && old(manager).progress >= MAX_PROGRESS ==> final(manager).progress == old(manager).progress,
        final(manager).is_progress == old(manager).is_progress,
{
    manager.complete_progress()
}

/// Shows the progress screen (see `InterfaceManager::start_progress`).
pub fn show_progress(manager: &mut InterfaceManager, mode: InterfaceMode)
    ensures
        final(manager).is_progress,
        final(manager).progress == 0,
        final(manager).progress_id == old(manager).spec_pick_cutscene(mode).spec_progress_id(),
        final(manager).state.load_started_at is Some,
{
    manager.start_progress(mode)
}

/// Processes pending interface events; there are none to process here.
pub fn interface_msg_pump() {
}

/// Progress never exceeds the maximum once it starts within it: adding
/// steps and completing both keep it at most `MAX_PROGRESS`.
pub proof fn lemma_progress_bounded(progress: int, steps: int)
    requires
        0 <= progress <= MAX_PROGRESS,
        steps >= 0,
    ensures
        ({
            let raw = progress + PROGRESS_STEP_SIZE * steps;
            0 <= (if raw > MAX_PROGRESS { MAX_PROGRESS as int } else { raw }) <= MAX_PROGRESS
        }),
{
    assert(PROGRESS_STEP_SIZE * steps >= 0) by (nonlinear_arith)
        requires
            steps >= 0,
    ;
}


/// The cutscenes of the transitions that do not depend on the level's
/// kind, for any manager: entering or returning to set level 6 shows the
/// catacombs cutscene, set level 9 (the Vile Betrayer) the red portal, and
/// returning from an arena (set levels from 50) the town; a new or loaded
/// game shows the start cutscene, returning to town the town, a warp the
/// portal, and going down from level 1 the town, from level 16 the hell
/// gate.
pub proof fn lemma_fixed_cutscenes(m: InterfaceManager, mode: InterfaceMode)
    ensures
        (mode == InterfaceMode::DiabSetLevel || mode == InterfaceMode::DiabReturnLevel) && m.set_level_num == 9
            ==> m.spec_pick_cutscene(mode) == Cutscene::PortalRed,
        (mode == InterfaceMode::DiabSetLevel || mode == InterfaceMode::DiabReturnLevel) && m.set_level_num == 6
            ==> m.spec_pick_cutscene(mode) == Cutscene::Level2,
        mode == InterfaceMode::DiabReturnLevel && m.set_level_num >= 50 ==> m.spec_pick_cutscene(mode) == Cutscene::Town,
        (mode == InterfaceMode::DiabNewGame || mode == InterfaceMode::DiabLoadGame) ==> m.spec_pick_cutscene(mode)
            == Cutscene::Start,
        mode == InterfaceMode::DiabReTown ==> m.spec_pick_cutscene(mode) == Cutscene::Town,
        mode == InterfaceMode::DiabWarpLevel ==> m.spec_pick_cutscene(mode) == Cutscene::Portal,
        mode == InterfaceMode::DiabNextLevel && m.current_level == 1 ==> m.spec_pick_cutscene(mode) == Cutscene::Town,
        mode == InterfaceMode::DiabNextLevel && m.current_level == 16 ==> m.spec_pick_cutscene(mode) == Cutscene::Gate,
{
}

} // verus!
