//! Sound effects: which effects are loaded for a hero, which one plays, and
//! the streamed effect that plays alone.

use vstd::prelude::*;
use vstd::string::StringSliceAdditionalSpecFns;
use std::time::Instant;
use crate::clock::{instant_now, instant_elapsed, duration_as_millis};
use crate::random::gameplay_rnd;
use crate::strings::str_equal;

verus! {

/// Lowest volume.
pub const VOLUME_MIN: i32 = -1600;

/// Highest volume.
pub const VOLUME_MAX: i32 = 0;

/// Sound effect flag bits.
#[derive(Debug, Clone, Copy, PartialEq, Eq, Hash, Structural)]
pub enum SfxFlag {
    /// Streamed effect.
    Stream,
    /// Miscellaneous effect.
    Misc,
    /// Interface effect.
    Ui,
    /// Monk effect.
    Monk,
    /// Rogue effect.
    Rogue,
    /// Warrior effect.
    Warrior,
    /// Sorcerer effect.
    Sorcerer,
}

impl SfxFlag {
    /// The bit of this flag.
    pub open spec fn spec_bits(self) -> u8 {
        match self {
            SfxFlag::Stream => 0x01,
            SfxFlag::Misc => 0x02,
            SfxFlag::Ui => 0x04,
            SfxFlag::Monk => 0x08,
            SfxFlag::Rogue => 0x10,
            SfxFlag::Warrior => 0x20,
            SfxFlag::Sorcerer => 0x40,
        }
    }

    /// The bit of this flag.
    pub fn bits(self) -> (b: u8)
        ensures
            b == self.spec_bits(),
    {
        match self {
            SfxFlag::Stream => 0x01,
            SfxFlag::Misc => 0x02,
            SfxFlag::Ui => 0x04,
            SfxFlag::Monk => 0x08,
            SfxFlag::Rogue => 0x10,
            SfxFlag::Warrior => 0x20,
            SfxFlag::Sorcerer => 0x40,
        }
    }

    /// The flag named `s`, if any.
    pub fn from_str(s: &str) -> (f: Option<Self>)
        ensures
            f == (if s.spec_bytes() == "Stream".spec_bytes() {
                Some(SfxFlag::Stream)
            } else if s.spec_bytes() == "Misc".spec_bytes() {
                Some(SfxFlag::Misc)
            } else if s.spec_bytes() == "Ui".spec_bytes() {
                Some(SfxFlag::Ui)
            } else if s.spec_bytes() == "Monk".spec_bytes() {
                Some(SfxFlag::Monk)
            } else if s.spec_bytes() == "Rogue".spec_bytes() {
                Some(SfxFlag::Rogue)
            } else if s.spec_bytes() == "Warrior".spec_bytes() {
                Some(SfxFlag::Warrior)
            } else if s.spec_bytes() == "Sorcerer".spec_bytes() {
                Some(SfxFlag::Sorcerer)
            } else {
                None
            }),
    {
        if str_equal(s, "Stream") {
            Some(Self::Stream)
        } else if str_equal(s, "Misc") {
            Some(Self::Misc)
        } else if str_equal(s, "Ui") {
            Some(Self::Ui)
        } else if str_equal(s, "Monk") {
            Some(Self::Monk)
        } else if str_equal(s, "Rogue") {
            Some(Self::Rogue)
        } else if str_equal(s, "Warrior") {
            Some(Self::Warrior)
        } else if str_equal(s, "Sorcerer") {
            Some(Self::Sorcerer)
        } else {
            None
        }
    }
}

/// Sound effect identifiers.
#[derive(Debug, Clone, Copy, PartialEq, Eq, Hash, Structural)]
pub enum SfxID {
    /// No effect.
    NoSound,
    /// Walking.
    Walk,
    /// Shooting a bow.
    ShootBow,
    /// Casting a spell.
    CastSpell,
    /// Swinging a weapon.
    Swing,
    /// Warrior line 69.
    Warrior69,
    /// Sorcerer line 69.
    Sorceror69,
    /// Rogue line 69.
    Rogue69,
    /// Monk line 69.
    Monk69,
    /// Acid spell.
    SpellAcid,
    /// Operating a shrine.
    OperateShrine,
    /// Warrior line 14.
    Warrior14,
    /// Warrior line 15.
    Warrior15,
    /// Warrior line 16.
    Warrior16,
    /// Warrior line 2.
    Warrior2,
    /// Rogue line 14.
    Rogue14,
    /// Sorcerer line 14.
    Sorceror14,
    /// Monk line 14.
    Monk14,
}

/// The number of an effect identifier.
pub open spec fn sfx_number(id: SfxID) -> i16 {
    match id {
        SfxID::NoSound => -1i16,
        SfxID::Walk => 0,
        SfxID::ShootBow => 1,
        SfxID::CastSpell => 2,
        SfxID::Swing => 3,
        SfxID::Warrior69 => 10,
        SfxID::Sorceror69 => 11,
        SfxID::Rogue69 => 12,
        SfxID::Monk69 => 13,
        SfxID::SpellAcid => 20,
        SfxID::OperateShrine => 30,
        SfxID::Warrior14 => 40,
        SfxID::Warrior15 => 41,
        SfxID::Warrior16 => 42,
        SfxID::Warrior2 => 43,
        SfxID::Rogue14 => 50,
        SfxID::Sorceror14 => 51,
        SfxID::Monk14 => 52,
    }
}

/// The effect identifier numbered `v`, if any.
pub open spec fn sfx_from_number(v: i16) -> Option<SfxID> {
    if v == -1i16 {
        Some(SfxID::NoSound)
    } else if v == 0 {
        Some(SfxID::Walk)
    } else if v == 1 {
        Some(SfxID::ShootBow)
    } else if v == 2 {
        Some(SfxID::CastSpell)
    } else if v == 3 {
        Some(SfxID::Swing)
    } else if v == 10 {
        Some(SfxID::Warrior69)
    } else if v == 11 {
        Some(SfxID::Sorceror69)
    } else if v == 12 {
        Some(SfxID::Rogue69)
    } else if v == 13 {
        Some(SfxID::Monk69)
    } else if v == 20 {
        Some(SfxID::SpellAcid)
    } else if v == 30 {
        Some(SfxID::OperateShrine)
    } else if v == 40 {
        Some(SfxID::Warrior14)
    } else if v == 41 {
        Some(SfxID::Warrior15)
    } else if v == 42 {
        Some(SfxID::Warrior16)
    } else if v == 43 {
        Some(SfxID::Warrior2)
    } else if v == 50 {
        Some(SfxID::Rogue14)
    } else if v == 51 {
        Some(SfxID::Sorceror14)
    } else if v == 52 {
        Some(SfxID::Monk14)
    } else {
        None
    }
}

impl SfxID {
    /// The number of this identifier.
    pub fn as_i16(self) -> (v: i16)
        ensures
            v == sfx_number(self),
    {
        match self {
            SfxID::NoSound => -1,
            SfxID::Walk => 0,
            SfxID::ShootBow => 1,
            SfxID::CastSpell => 2,
            SfxID::Swing => 3,
            SfxID::Warrior69 => 10,
            SfxID::Sorceror69 => 11,
            SfxID::Rogue69 => 12,
            SfxID::Monk69 => 13,
            SfxID::SpellAcid => 20,
            SfxID::OperateShrine => 30,
            SfxID::Warrior14 => 40,
            SfxID::Warrior15 => 41,
            SfxID::Warrior16 => 42,
            SfxID::Warrior2 => 43,
            SfxID::Rogue14 => 50,
            SfxID::Sorceror14 => 51,
            SfxID::Monk14 => 52,
        }
    }

    /// The identifier numbered `value`, if any.
    pub fn from_i16(value: i16) -> (id: Option<Self>)
        ensures
            id == sfx_from_number(value),
    {
        match value {
            -1 => Some(Self::NoSound),
            0 => Some(Self::Walk),
            1 => Some(Self::ShootBow),
            2 => Some(Self::CastSpell),
            3 => Some(Self::Swing),
            10 => Some(Self::Warrior69),
            11 => Some(Self::Sorceror69),
            12 => Some(Self::Rogue69),
            13 => Some(Self::Monk69),
            20 => Some(Self::SpellAcid),
            30 => Some(Self::OperateShrine),
            40 => Some(Self::Warrior14),
            41 => Some(Self::Warrior15),
            42 => Some(Self::Warrior16),
            43 => Some(Self::Warrior2),
            50 => Some(Self::Rogue14),
            51 => Some(Self::Sorceror14),
            52 => Some(Self::Monk14),
            _ => None,
        }
    }
}

/// Converting an identifier to its number and back gives the identifier.
pub proof fn lemma_sfx_number_roundtrip(id: SfxID)
    ensures
        sfx_from_number(sfx_number(id)) == Some(id),
{
}

/// A number that names an identifier is that identifier's number.
pub proof fn lemma_sfx_from_number_inverse(v: i16)
    ensures
        sfx_from_number(v) matches Some(id) ==> sfx_number(id) == v,
{
}

/// The effect that `id` turns into for a roll `roll`: lines with two
/// variants move by a roll of 0 or 1, lines with three by 0 to 2, when the
/// number reached names an effect; all others stay.
pub open spec fn randomized(id: SfxID, roll: i16) -> SfxID {
    let two = id == SfxID::Warrior69 || id == SfxID::Sorceror69 || id == SfxID::Rogue69 || id
        == SfxID::Monk69 || id == SfxID::Swing || id == SfxID::SpellAcid || id
        == SfxID::OperateShrine;
    let three = id == SfxID::Warrior14 || id == SfxID::Warrior15 || id == SfxID::Warrior16 || id
        == SfxID::Warrior2 || id == SfxID::Rogue14 || id == SfxID::Sorceror14 || id
        == SfxID::Monk14;
    if two || three {
        match sfx_from_number((sfx_number(id) + roll) as i16) {
            Some(v) => v,
            None => id,
        }
    } else {
        id
    }
}

/// The number of variants of the line `id`: 2, 3, or 1 for a fixed effect.
pub open spec fn variants(id: SfxID) -> i16 {
    if id == SfxID::Warrior69 || id == SfxID::Sorceror69 || id == SfxID::Rogue69 || id
        == SfxID::Monk69 || id == SfxID::Swing || id == SfxID::SpellAcid || id
        == SfxID::OperateShrine {
        2
    } else if id == SfxID::Warrior14 || id == SfxID::Warrior15 || id == SfxID::Warrior16 || id
        == SfxID::Warrior2 || id == SfxID::Rogue14 || id == SfxID::Sorceror14 || id
        == SfxID::Monk14 {
        3
    } else {
        1
    }
}

/// Speech lines of a hero.
#[derive(Debug, Clone, Copy, PartialEq, Eq, Structural)]
pub enum HeroSpeech {
    /// Taking damage.
    TakingDamage,
    /// Dying.
    Dying,
    /// Gaining a level.
    LevelUp,
    /// Low life.
    LowHealth,
    /// Low mana.
    LowMana,
}

/// Hero classes.
#[derive(Debug, Clone, Copy, PartialEq, Eq, Structural)]
pub enum HeroClass {
    /// Warrior.
    Warrior,
    /// Rogue.
    Rogue,
    /// Sorcerer.
    Sorcerer,
    /// Monk.
    Monk,
    /// Bard.
    Bard,
    /// Barbarian.
    Barbarian,
}

impl HeroClass {
    /// The effect bit of this class's voice.
    pub open spec fn spec_sfx_mask(self) -> u8 {
        match self {
            HeroClass::Warrior | HeroClass::Barbarian => SfxFlag::Warrior.spec_bits(),
            HeroClass::Rogue | HeroClass::Bard => SfxFlag::Rogue.spec_bits(),
            HeroClass::Sorcerer => SfxFlag::Sorcerer.spec_bits(),
            HeroClass::Monk => SfxFlag::Monk.spec_bits(),
        }
    }

    /// The effect bit of this class's voice.
    pub fn get_sfx_mask(&self) -> (m: u8)
        ensures
            m == self.spec_sfx_mask(),
    {
        match self {
            HeroClass::Warrior | HeroClass::Barbarian => SfxFlag::Warrior.bits(),
            HeroClass::Rogue | HeroClass::Bard => SfxFlag::Rogue.bits(),
            HeroClass::Sorcerer => SfxFlag::Sorcerer.bits(),
            HeroClass::Monk => SfxFlag::Monk.bits(),
        }
    }
}

/// One sound effect.
#[derive(Debug)]
pub struct SoundEffect {
    /// Flag bits.
    pub flags: u8,
    /// Its file.
    pub path: String,
    /// Whether it is loaded.
    pub loaded: bool,
    /// Whether it plays.
    pub playing: bool,
    /// When it started playing.
    pub start_time: Option<Instant>,
    /// Its length in milliseconds.
    pub duration_ms: u32,
}

impl SoundEffect {
    /// The stream bit is set.
    pub open spec fn spec_is_stream(&self) -> bool {
        self.flags & 1 != 0
    }

    /// The miscellaneous bit is set.
    pub open spec fn spec_is_misc(&self) -> bool {
        self.flags & 2 != 0
    }

    /// This effect, stopped.
    pub open spec fn stopped(self) -> SoundEffect {
        SoundEffect { playing: false, start_time: None, ..self }
    }

    /// A new effect: not loaded, silent, of no length.
    pub fn new(flags: u8, path: String) -> (e: Self)
        ensures
            e.flags == flags,
            e.path == path,
            !e.loaded,
            !e.playing,
            e.start_time is None,
            e.duration_ms == 0,
    {
        SoundEffect { flags, path, loaded: false, playing: false, start_time: None, duration_ms: 0 }
    }

    /// Whether the stream bit is set.
    pub fn is_stream(&self) -> (b: bool)
        ensures
            b == self.spec_is_stream(),
    {
        (self.flags & SfxFlag::Stream.bits()) != 0
    }

    /// Whether the miscellaneous bit is set.
    pub fn is_misc(&self) -> (b: bool)
        ensures
            b == self.spec_is_misc(),
    {
        (self.flags & SfxFlag::Misc.bits()) != 0
    }

    /// Whether the interface bit is set.
    pub fn is_ui(&self) -> (b: bool)
        ensures
            b == (self.flags & 4 != 0),
    {
        (self.flags & SfxFlag::Ui.bits()) != 0
    }

    /// Given the milliseconds since the effect started (`None` when it did
    /// not start), stops it once it has lasted its length (the count taken
    /// modulo 2^32).
    pub fn stop_if_finished(&mut self, elapsed_ms: Option<u128>)
        ensures
            match elapsed_ms {
                Some(ms) => if old(self).start_time is Some && ms as u32 >= old(self).duration_ms {
                    *final(self) == old(self).stopped()
                } else {
                    *final(self) == *old(self)
                },
                None => *final(self) == *old(self),
            },
    {
        if self.start_time.is_some() {
            match elapsed_ms {
                Some(ms) => {
                    if ms as u32 >= self.duration_ms {
                        self.playing = false;
                        self.start_time = None;
                    }
                },
                None => {},
            }
        }
    }

    /// Stops the effect when it has played for its length.
    pub fn update_playing_state(&mut self)
        ensures
            *final(self) == *old(self) || (old(self).start_time is Some && *final(self) == old(self).stopped()),
    {
        let elapsed = match &self.start_time {
            Some(start) => {
                let d = instant_elapsed(start);
                Some(duration_as_millis(&d))
            },
            None => None,
        };
        self.stop_if_finished(elapsed);
    }
}

/// Whether the effect `e` is loaded for the voice mask `mask`: it has
/// flags, is not loaded yet, is not streamed, and shares a bit with `mask`.
pub open spec fn loads_for(e: SoundEffect, mask: u8) -> bool {
    e.flags != 0 && !e.loaded && !e.spec_is_stream() && e.flags & mask != 0
}

/// The effects after loading those for `mask`.
pub open spec fn loaded_for(effects: Seq<SoundEffect>, mask: u8) -> Seq<SoundEffect> {
    Seq::new(
        effects.len(),
        |i: int|
            if loads_for(effects[i], mask) {
                SoundEffect { loaded: true, ..effects[i] }
            } else {
                effects[i]
            },
    )
}

/// The effects with the one at `index` (if any) stopped.
pub open spec fn stop_at(effects: Seq<SoundEffect>, index: Option<usize>) -> Seq<SoundEffect> {
    match index {
        Some(i) => if i < effects.len() {
            effects.update(i as int, effects[i as int].stopped())
        } else {
            effects
        },
        None => effects,
    }
}

/// The voice mask used for a hero: miscellaneous effects and, in a
/// multiplayer game, the warrior and monk (and, with the full game, rogue
/// and sorcerer) voices; otherwise the hero's own voice.
pub open spec fn class_mask(multiplayer: bool, spawn: bool, class: HeroClass) -> u8 {
    if multiplayer {
        if !spawn {
            (0x02u8 | (0x20u8 | 0x08u8)) | (0x10u8 | 0x40u8)
        } else {
            0x02u8 | (0x20u8 | 0x08u8)
        }
    } else {
        0x02u8 | class.spec_sfx_mask()
    }
}

/// Whether `id` starts playing over `effects`: it is known, sound is on,
/// and it does not play already unless streamed or miscellaneous.
pub open spec fn starts(effects: Seq<SoundEffect>, enabled: bool, id: SfxID) -> bool {
    let i = sfx_number(id) as int;
    &&& 0 <= i < effects.len()
    &&& enabled
    &&& !(!effects[i].spec_is_stream() && !effects[i].spec_is_misc() && effects[i].playing)
}

/// `after` and `after_current` are `effects` and `current` once `id` started:
/// a streamed effect first stops the stream playing and becomes it; the
/// effect plays from a fresh start time; all else is kept.
pub open spec fn started(
    effects: Seq<SoundEffect>,
    current: Option<usize>,
    after: Seq<SoundEffect>,
    after_current: Option<usize>,
    id: SfxID,
) -> bool {
    let i = sfx_number(id) as int;
    let stream = effects[i].spec_is_stream();
    let base = if stream { stop_at(effects, current) } else { effects };
    &&& after.len() == base.len()
    &&& forall|j: int| 0 <= j < base.len() && j != i ==> after[j] == base[j]
    &&& after[i].start_time is Some
    &&& after[i] == (SoundEffect { playing: true, start_time: after[i].start_time, ..base[i] })
    &&& after_current == (if stream { Some(i as usize) } else { current })
}

/// `effects` with the timer of `id` cleared, for the walking, bow, spell and
/// swing effects.
pub open spec fn timer_cleared(effects: Seq<SoundEffect>, id: SfxID) -> Seq<SoundEffect> {
    let i = sfx_number(id) as int;
    if (id == SfxID::Walk || id == SfxID::ShootBow || id == SfxID::CastSpell || id == SfxID::Swing)
        && 0 <= i < effects.len() {
        effects.update(i, SoundEffect { start_time: None, ..effects[i] })
    } else {
        effects
    }
}

/// The sound effect manager.
#[derive(Debug)]
pub struct EffectsManager {
    /// All effects.
    pub effects: Vec<SoundEffect>,
    /// The streamed effect playing, if any.
    pub current_stream: Option<usize>,
    /// Delay before the delayed effect plays.
    pub sfx_delay: i32,
    /// The delayed effect.
    pub sfx_delay_id: SfxID,
    /// Whether sound is set up.
    pub sound_initialized: bool,
    /// Whether sound is on.
    pub sound_enabled: bool,
    /// Whether this is a multiplayer game.
    pub is_multiplayer: bool,
    /// Whether this is the shareware version.
    pub is_spawn: bool,
}

impl EffectsManager {
    /// Everything but the effects and the current stream is as in `other`.
    pub open spec fn same_settings(&self, other: &EffectsManager) -> bool {
        &&& self.sfx_delay == other.sfx_delay
        &&& self.sfx_delay_id == other.sfx_delay_id
        &&& self.sound_initialized == other.sound_initialized
        &&& self.sound_enabled == other.sound_enabled
        &&& self.is_multiplayer == other.is_multiplayer
        &&& self.is_spawn == other.is_spawn
    }

    /// A manager with no effects, sound on but not set up.
    pub fn new() -> (m: Self)
        ensures
            m.effects@.len() == 0,
            m.current_stream is None,
            m.sfx_delay == 0,
            m.sfx_delay_id == SfxID::NoSound,
            !m.sound_initialized,
            m.sound_enabled,
            !m.is_multiplayer,
            !m.is_spawn,
    {
        EffectsManager {
            effects: Vec::new(),
            current_stream: None,
            sfx_delay: 0,
            sfx_delay_id: SfxID::NoSound,
            sound_initialized: false,
            sound_enabled: true,
            is_multiplayer: false,
            is_spawn: false,
        }
    }

    /// Replaces the effects by one new effect per `(flags, path)` entry.
    pub fn load_effects_data(&mut self, data: &[(u8, &str)])
        ensures
            final(self).effects@.len() == data@.len(),
            forall|i: int|
                0 <= i < data@.len() ==> {
                    &&& (#[trigger] final(self).effects@[i]).flags == data@[i].0
                    &&& final(self).effects@[i].path@ == data@[i].1@
                    &&& !final(self).effects@[i].loaded
                    &&& !final(self).effects@[i].playing
                    &&& final(self).effects@[i].start_time is None
                    &&& final(self).effects@[i].duration_ms == 0
                },
            final(self).current_stream == old(self).current_stream,
            final(self).same_settings(old(self)),
    {
        self.effects.clear();
        let mut i: usize = 0;
        while i < data.len()
            invariant
                0 <= i <= data@.len(),
                self.effects@.len() == i,
                forall|j: int|
                    0 <= j < i ==> {
                        &&& (#[trigger] self.effects@[j]).flags == data@[j].0
                        &&& self.effects@[j].path@ == data@[j].1@
                        &&& !self.effects@[j].loaded
                        &&& !self.effects@[j].playing
                        &&& self.effects@[j].start_time is None
                        &&& self.effects@[j].duration_ms == 0
                    },
                self.current_stream == old(self).current_stream,
                self.same_settings(old(self)),
            decreases data@.len() - i,
        {
            let (flags, path) = data[i];
            self.effects.push(SoundEffect::new(flags, path.to_owned()));
            i = i + 1;
        }
    }

    /// When sound is set up, loads the effects of a hero of class
    /// `hero_class` (see `class_mask`).
    pub fn init_for_class(&mut self, hero_class: HeroClass)
        ensures
            !old(self).sound_initialized ==> *final(self) == *old(self),
            old(self).sound_initialized ==> final(self).effects@ == loaded_for(
                old(self).effects@,
                class_mask(old(self).is_multiplayer, old(self).is_spawn, hero_class),
            ),
            final(self).current_stream == old(self).current_stream,
            final(self).same_settings(old(self)),
    {
        if !self.sound_initialized {
            return;
        }
        let mut mask = SfxFlag::Misc.bits();
        if self.is_multiplayer {
            mask = mask | (SfxFlag::Warrior.bits() | SfxFlag::Monk.bits());
            if !self.is_spawn {
                mask = mask | (SfxFlag::Rogue.bits() | SfxFlag::Sorcerer.bits());
            }
        } else {
            mask = mask | hero_class.get_sfx_mask();
        }
        self.load_effects_with_mask(mask);
    }

    /// When sound is set up, loads the interface effects.
    pub fn init_ui_sounds(&mut self)
        ensures
            !old(self).sound_initialized ==> *final(self) == *old(self),
            old(self).sound_initialized ==> final(self).effects@ == loaded_for(
                old(self).effects@,
                4,
            ),
            final(self).current_stream == old(self).current_stream,
            final(self).same_settings(old(self)),
    {
        self.load_effects_with_mask(SfxFlag::Ui.bits());
    }

    /// When sound is set up, marks loaded every effect that `loads_for` `mask`.
    fn load_effects_with_mask(&mut self, mask: u8)
        ensures
            !old(self).sound_initialized ==> *final(self) == *old(self),
            old(self).sound_initialized ==> final(self).effects@ == loaded_for(
                old(self).effects@,
                mask,
            ),
            final(self).current_stream == old(self).current_stream,
            final(self).same_settings(old(self)),
    {
        if !self.sound_initialized {
            return;
        }
        let ghost before = self.effects@;
        let n = self.effects.len();
        let mut i: usize = 0;
        while i < n
            invariant
                n == before.len(),
                self.effects@.len() == n,
                0 <= i <= n,
                forall|j: int| 0 <= j < i ==> self.effects@[j] == loaded_for(before, mask)[j],
                forall|j: int| i <= j < n ==> self.effects@[j] == before[j],
                self.current_stream == old(self).current_stream,
                self.same_settings(old(self)),
                self.sound_initialized,
            decreases n - i,
        {
            let skip = self.effects[i].flags == 0 || self.effects[i].loaded
                || self.effects[i].is_stream() || (self.effects[i].flags & mask) == 0;
            if !skip {
                self.effects[i].loaded = true;
            }
            i = i + 1;
        }
        assert(self.effects@ =~= loaded_for(before, mask));
    }

    /// Whether the effect `sfx_id` plays: it is marked playing, or it is
    /// the streamed effect playing; never before sound is set up.
    pub fn is_playing(&self, sfx_id: SfxID) -> (b: bool)
        ensures
            b == ({
                let i = sfx_number(sfx_id) as int;
                &&& self.sound_initialized
                &&& 0 <= i < self.effects@.len()
                &&& (self.effects@[i].playing || (self.effects@[i].spec_is_stream()
                    && self.current_stream == Some(i as usize)))
            }),
    {
        if !self.sound_initialized {
            return false;
        }
        let index = sfx_id.as_i16();
        if index < 0 || index as usize >= self.effects.len() {
            return false;
        }
        let effect = &self.effects[index as usize];
        if effect.playing {
            return true;
        }
        if effect.is_stream() {
            return match self.current_stream {
                Some(c) => c == index as usize,
                None => false,
            };
        }
        false
    }

    /// Stops the streamed effect, if one plays.
    pub fn stop_stream(&mut self)
        ensures
            final(self).current_stream is None,
            final(self).effects@ == stop_at(old(self).effects@, old(self).current_stream),
            final(self).same_settings(old(self)),
    {
        let current = self.current_stream;
        self.current_stream = None;
        match current {
            Some(index) => {
                if index < self.effects.len() {
                    self.effects[index].playing = false;
                    self.effects[index].start_time = None;
                }
            },
            None => {},
        }
    }

    /// The effect after variation by a roll: see `randomized`.
    pub fn randomize_sfx_with(sfx_id: SfxID, roll: i16) -> (r: SfxID)
        requires
            0 <= roll <= 2,
        ensures
            r == randomized(sfx_id, roll),
    {
        match sfx_id {
            SfxID::Warrior69 | SfxID::Sorceror69 | SfxID::Rogue69 | SfxID::Monk69 | SfxID::Swing
            | SfxID::SpellAcid | SfxID::OperateShrine | SfxID::Warrior14 | SfxID::Warrior15
            | SfxID::Warrior16 | SfxID::Warrior2 | SfxID::Rogue14 | SfxID::Sorceror14
            | SfxID::Monk14 => {
                match SfxID::from_i16(sfx_id.as_i16() + roll) {
                    Some(v) => v,
                    None => sfx_id,
                }
            },
            _ => sfx_id,
        }
    }

    /// A variant of the line `sfx_id`, drawn by chance.
    fn randomize_sfx(&self, sfx_id: SfxID) -> (r: SfxID)
        ensures
            exists|roll: i16| #![trigger randomized(sfx_id, roll)] 0 <= roll < variants(sfx_id) && r == randomized(sfx_id, roll),
    {
        let n = if sfx_id == SfxID::Warrior69 || sfx_id == SfxID::Sorceror69 || sfx_id
            == SfxID::Rogue69 || sfx_id == SfxID::Monk69 || sfx_id == SfxID::Swing || sfx_id
            == SfxID::SpellAcid || sfx_id == SfxID::OperateShrine {
            2i16
        } else if sfx_id == SfxID::Warrior14 || sfx_id == SfxID::Warrior15 || sfx_id
            == SfxID::Warrior16 || sfx_id == SfxID::Warrior2 || sfx_id == SfxID::Rogue14 || sfx_id
            == SfxID::Sorceror14 || sfx_id == SfxID::Monk14 {
            3i16
        } else {
            1i16
        };
        if n == 1 {
            assert(randomized(sfx_id, 0) == sfx_id);
            return sfx_id;
        }
        let roll = gameplay_rnd(0, n - 1);
        Self::randomize_sfx_with(sfx_id, roll)
    }

    /// The volume and pan of an effect heard at `position`: centred and at
    /// full volume.
    fn calculate_sound_position(&self, position: (i32, i32)) -> (r: (i32, i32))
        ensures
            r == (0i32, 0i32),
    {
        (0, 0)
    }

    /// Starts `sfx_id`, heard at `position` when `localized`.
    fn play_sfx_internal(&mut self, sfx_id: SfxID, localized: bool, position: (i32, i32))
        ensures
            starts(old(self).effects@, old(self).sound_enabled, sfx_id) ==> started(
                old(self).effects@,
                old(self).current_stream,
                final(self).effects@,
                final(self).current_stream,
                sfx_id,
            ),
            !starts(old(self).effects@, old(self).sound_enabled, sfx_id) ==> *final(self) == *old(self),
            final(self).same_settings(old(self)),
    {
        let index = sfx_id.as_i16();
        if index < 0 || index as usize >= self.effects.len() {
            return;
        }
        if !self.sound_enabled {
            return;
        }
        let i = index as usize;
        let is_stream = self.effects[i].is_stream();
        let is_misc = self.effects[i].is_misc();
        let is_playing = self.effects[i].playing;
        if !is_stream && !is_misc && is_playing {
            return;
        }
        let (volume, _pan) = if localized {
            self.calculate_sound_position(position)
        } else {
            (0, 0)
        };
        if localized && volume < VOLUME_MIN {
            return;
        }
        if is_stream {
            self.stop_stream();
        }
        self.effects[i].playing = true;
        self.effects[i].start_time = Some(instant_now());
        if is_stream {
            self.current_stream = Some(i);
        }
    }

    /// Plays a variant of `sfx_id` drawn by chance, once sound is set up.
    pub fn play_sfx(&mut self, sfx_id: SfxID)
        ensures
            !old(self).sound_initialized ==> *final(self) == *old(self),
            old(self).sound_initialized ==> exists|roll: i16|
                #![trigger randomized(sfx_id, roll)]
                0 <= roll < variants(sfx_id) && {
                    let id = randomized(sfx_id, roll);
                    &&& starts(old(self).effects@, old(self).sound_enabled, id) ==> started(
                        old(self).effects@,
                        old(self).current_stream,
                        final(self).effects@,
                        final(self).current_stream,
                        id,
                    )
                    &&& !starts(old(self).effects@, old(self).sound_enabled, id) ==> *final(self)
                        == *old(self)
                },
            final(self).same_settings(old(self)),
    {
        let sfx_id = self.randomize_sfx(sfx_id);
        if !self.sound_initialized {
            return;
        }
        self.play_sfx_internal(sfx_id, false, (0, 0));
    }

    /// Plays `sfx_id` (a variant drawn by chance when `randomize`) heard at
    /// `position`, once sound is set up; the walking, bow, spell and swing
    /// effects restart their timer first.
    pub fn play_sfx_at(&mut self, sfx_id: SfxID, position: (i32, i32), randomize: bool)
        ensures
            !old(self).sound_initialized ==> *final(self) == *old(self),
            old(self).sound_initialized ==> exists|roll: i16|
                #![trigger randomized(sfx_id, roll)]
                0 <= roll < (if randomize { variants(sfx_id) } else { 1 }) && {
                    let id = if randomize { randomized(sfx_id, roll) } else { sfx_id };
                    let cleared = timer_cleared(old(self).effects@, id);
                    &&& starts(cleared, old(self).sound_enabled, id) ==> started(
                        cleared,
                        old(self).current_stream,
                        final(self).effects@,
                        final(self).current_stream,
                        id,
                    )
                    &&& !starts(cleared, old(self).sound_enabled, id) ==> final(self).effects@
                        == cleared && final(self).current_stream == old(self).current_stream
                },
            final(self).same_settings(old(self)),
    {
        let ghost orig = sfx_id;
        let sfx_id = if randomize {
            self.randomize_sfx(sfx_id)
        } else {
            sfx_id
        };
        let ghost roll: i16 = if randomize {
            choose|r: i16| 0 <= r < variants(orig) && sfx_id == randomized(orig, r)
        } else {
            0
        };
        assert(randomized(orig, roll) == randomized(orig, roll));
        if !self.sound_initialized {
            return;
        }
        if sfx_id == SfxID::Walk || sfx_id == SfxID::ShootBow || sfx_id == SfxID::CastSpell
            || sfx_id == SfxID::Swing {
            let i = sfx_id.as_i16() as usize;
            if i < self.effects.len() {
                self.effects[i].start_time = None;
            }
        }
        assert(self.effects@ == timer_cleared(old(self).effects@, sfx_id));
        assert(self.current_stream == old(self).current_stream);
        self.play_sfx_internal(sfx_id, true, position);
        assert(0 <= roll < (if randomize { variants(orig) } else { 1 }));
        assert((if randomize { randomized(orig, roll) } else { orig }) == sfx_id);
    }

    /// Stops every effect, once sound is set up.
    pub fn stop_all(&mut self)
        ensures
            !old(self).sound_initialized ==> *final(self) == *old(self),
            old(self).sound_initialized ==> {
                &&& final(self).effects@.len() == old(self).effects@.len()
                &&& forall|i: int|
                    0 <= i < old(self).effects@.len() ==> #[trigger] final(self).effects@[i]
                        == old(self).effects@[i].stopped()
                &&& final(self).current_stream is None
            },
            final(self).same_settings(old(self)),
    {
        if !self.sound_initialized {
            return;
        }
        let n = self.effects.len();
        let ghost before = self.effects@;
        let mut i: usize = 0;
        while i < n
            invariant
                n == before.len(),
                self.effects@.len() == n,
                0 <= i <= n,
                forall|j: int| 0 <= j < i ==> self.effects@[j] == before[j].stopped(),
                forall|j: int| i <= j < n ==> self.effects@[j] == before[j],
                self.current_stream == old(self).current_stream,
                self.same_settings(old(self)),
            decreases n - i,
        {
            self.effects[i].playing = false;
            self.effects[i].start_time = None;
            i = i + 1;
        }
        self.current_stream = None;
    }

    /// Once sound is set up, stops the streamed effect when it has played
    /// for its length, and forgets it when it no longer plays.
    pub fn update(&mut self)
        ensures
            !old(self).sound_initialized ==> *final(self) == *old(self),
            final(self).effects@.len() == old(self).effects@.len(),
            forall|j: int|
                0 <= j < old(self).effects@.len() && Some(j as usize) != old(self).current_stream ==> #[trigger] final(self).effects@[j] == old(self).effects@[j],
            old(self).sound_initialized ==> match old(self).current_stream {
                Some(c) => if c < old(self).effects@.len() {
                    let e = old(self).effects@[c as int];
                    &&& (final(self).effects@[c as int] == e || (e.start_time is Some && final(self).effects@[c as int] == e.stopped()))
                    &&& final(self).current_stream == (if final(self).effects@[c as int].playing {
                        Some(c)
                    } else {
                        None
                    })
                } else {
                    final(self).current_stream == old(self).current_stream
                },
                None => final(self).current_stream == old(self).current_stream,
            },
            final(self).same_settings(old(self)),
    {
        if !self.sound_initialized {
            return;
        }
        match self.current_stream {
            Some(index) => {
                if index < self.effects.len() {
                    self.effects[index].update_playing_state();
                    if !self.effects[index].playing {
                        self.current_stream = None;
                    }
                }
            },
            None => {},
        }
    }

    /// Stops every effect and unloads them all.
    pub fn cleanup(&mut self)
        ensures
            final(self).effects@.len() == old(self).effects@.len(),
            forall|i: int|
                0 <= i < old(self).effects@.len() ==> #[trigger] final(self).effects@[i] == (if old(self).sound_initialized {
                    SoundEffect { loaded: false, ..old(self).effects@[i].stopped() }
                } else {
                    SoundEffect { loaded: false, ..old(self).effects@[i] }
                }),
            final(self).current_stream == (if old(self).sound_initialized {
                None
            } else {
                old(self).current_stream
            }),
            final(self).same_settings(old(self)),
    {
        self.stop_all();
        let n = self.effects.len();
        let ghost before = self.effects@;
        let mut i: usize = 0;
        while i < n
            invariant
                n == before.len(),
                self.effects@.len() == n,
                0 <= i <= n,
                forall|j: int| 0 <= j < i ==> self.effects@[j] == (SoundEffect { loaded: false, ..before[j] }),
                forall|j: int| i <= j < n ==> self.effects@[j] == before[j],
                self.current_stream == (if old(self).sound_initialized {
                    None
                } else {
                    old(self).current_stream
                }),
                self.same_settings(old(self)),
            decreases n - i,
        {
            self.effects[i].loaded = false;
            i = i + 1;
        }
    }

    /// Starts `sfx_id` unless it plays already, when sound is set up and on.
    pub fn play_effect(&mut self, sfx_id: SfxID)
        ensures
            ({
                let i = sfx_number(sfx_id) as int;
                if old(self).sound_initialized && old(self).sound_enabled && 0 <= i < old(self).effects@.len() && !old(self).effects@[i].playing {
                    &&& final(self).effects@.len() == old(self).effects@.len()
                    &&& final(self).effects@[i].start_time is Some
                    &&& final(self).effects@ == old(self).effects@.update(
                        i,
                        SoundEffect {
                            playing: true,
                            start_time: final(self).effects@[i].start_time,
                            ..old(self).effects@[i]
                        },
                    )
                    &&& final(self).current_stream == old(self).current_stream
                    &&& final(self).same_settings(old(self))
                } else {
                    *final(self) == *old(self)
                }
            }),
    {
        if !self.sound_initialized || !self.sound_enabled {
            return;
        }
        let index = sfx_id.as_i16();
        if index < 0 || index as usize >= self.effects.len() {
            return;
        }
        let i = index as usize;
        if !self.effects[i].playing {
            self.effects[i].playing = true;
            self.effects[i].start_time = Some(instant_now());
        }
    }

    /// The length of `sfx_id` in milliseconds, 0 for an unknown effect.
    pub fn get_sfx_length(&self, sfx_id: SfxID) -> (ms: u32)
        ensures
            ms == (if 0 <= sfx_number(sfx_id) < self.effects@.len() {
                self.effects@[sfx_number(sfx_id) as int].duration_ms
            } else {
                0
            }),
    {
        let index = sfx_id.as_i16();
        if index < 0 || index as usize >= self.effects.len() {
            return 0;
        }
        self.effects[index as usize].duration_ms
    }
}

impl Default for EffectsManager {
    fn default() -> (m: Self)
        ensures
            m.effects@.len() == 0,
            m.current_stream is None,
            !m.sound_initialized,
            m.sound_enabled,
    {
        Self::new()
    }
}

} // verus!
