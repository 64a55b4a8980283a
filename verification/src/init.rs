//! Game start-up: version checks of the asset archives, the archives known,
//! and the start-up state.

use vstd::prelude::*;
use vstd::string::{StringSliceAdditionalSpecFns, StringExecFns};
use vstd::utf8::valid_utf8;
use crate::strings::str_equal;

verus! {

/// The expected content of the asset archive's version file.
pub const DEVILUTIONX_MPQ_VERSION: &'static str = "1\n";

/// The expected content of the extra fonts' version file.
pub const EXTRA_FONTS_VERSION: &'static str = "1\n";

/// Start-up errors.
#[derive(Debug, Clone, PartialEq, Eq)]
pub enum InitError {
    /// An archive is missing.
    MpqNotFound(String),
    /// The asset archive is out of date.
    MpqOutOfDate,
    /// The extra fonts are missing.
    FontsNotFound,
    /// The extra fonts are out of date.
    FontsOutOfDate,
    /// The data directory is missing.
    DataDirNotFound,
    /// No window could be created.
    WindowCreationFailed,
    /// The media layer failed to start.
    SdlInitFailed(String),
    /// Any other error.
    Unknown(String),
}

impl InitError {
    /// The message describing this error.
    pub open spec fn spec_message(&self) -> Seq<char> {
        match self {
            InitError::MpqNotFound(name) => "MPQ file not found: "@ + name@,
            InitError::MpqOutOfDate => "DevilutionX MPQ is out of date"@,
            InitError::FontsNotFound => "Extra fonts not found"@,
            InitError::FontsOutOfDate => "Extra fonts are out of date"@,
            InitError::DataDirNotFound => "Data directory not found"@,
            InitError::WindowCreationFailed => "Failed to create window"@,
            InitError::SdlInitFailed(msg) => "SDL initialization failed: "@ + msg@,
            InitError::Unknown(msg) => "Unknown error: "@ + msg@,
        }
    }

    /// The message describing this error.
    pub fn message(&self) -> (m: String)
        ensures
            m@ == self.spec_message(),
    {
        match self {
            InitError::MpqNotFound(name) => {
                let mut m = String::from_str("MPQ file not found: ");
                m.append(name.as_str());
                m
            },
            InitError::MpqOutOfDate => String::from_str("DevilutionX MPQ is out of date"),
            InitError::FontsNotFound => String::from_str("Extra fonts not found"),
            InitError::FontsOutOfDate => String::from_str("Extra fonts are out of date"),
            InitError::DataDirNotFound => String::from_str("Data directory not found"),
            InitError::WindowCreationFailed => String::from_str("Failed to create window"),
            InitError::SdlInitFailed(msg) => {
                let mut m = String::from_str("SDL initialization failed: ");
                m.append(msg.as_str());
                m
            },
            InitError::Unknown(msg) => {
                let mut m = String::from_str("Unknown error: ");
                m.append(msg.as_str());
                m
            },
        }
    }
}

/// Start-up state.
#[derive(Debug, Clone)]
pub struct InitState {
    /// The game is active.
    pub is_active: bool,
    /// The main archive is loaded.
    pub mpq_loaded: bool,
    /// The fonts are loaded.
    pub fonts_loaded: bool,
    /// Hellfire was found.
    pub hellfire_detected: bool,
    /// The shareware version was found.
    pub spawn_detected: bool,
    /// Version of the asset archive.
    pub devilutionx_mpq_version: Option<String>,
    /// Version of the fonts.
    pub fonts_version: Option<String>,
    /// Data directory.
    pub data_path: Option<String>,
    /// Save directory.
    pub save_path: Option<String>,
    /// Configuration directory.
    pub config_path: Option<String>,
}

impl InitState {
    /// Nothing loaded, nothing detected, no paths.
    pub open spec fn is_blank(&self) -> bool {
        &&& !self.is_active
        &&& !self.mpq_loaded
        &&& !self.fonts_loaded
        &&& !self.hellfire_detected
        &&& !self.spawn_detected
        &&& self.devilutionx_mpq_version is None
        &&& self.fonts_version is None
        &&& self.data_path is None
        &&& self.save_path is None
        &&& self.config_path is None
    }

    /// A blank state.
    pub fn new() -> (s: Self)
        ensures
            s.is_blank(),
    {
        InitState {
            is_active: false,
            mpq_loaded: false,
            fonts_loaded: false,
            hellfire_detected: false,
            spawn_detected: false,
            devilutionx_mpq_version: None,
            fonts_version: None,
            data_path: None,
            save_path: None,
            config_path: None,
        }
    }

    /// Sets whether the game is active.
    pub fn set_active(&mut self, active: bool)
        ensures
            *final(self) == (InitState { is_active: active, ..*old(self) }),
    {
        self.is_active = active;
    }

    /// Whether the game can run: the archive is loaded and the game active.
    pub fn is_ready(&self) -> (b: bool)
        ensures
            b == (self.mpq_loaded && self.is_active),
    {
        self.mpq_loaded && self.is_active
    }

    /// Whether Hellfire was found.
    pub fn is_hellfire(&self) -> (b: bool)
        ensures
            b == self.hellfire_detected,
    {
        self.hellfire_detected
    }

    /// Whether the shareware version was found.
    pub fn is_spawn(&self) -> (b: bool)
        ensures
            b == self.spawn_detected,
    {
        self.spawn_detected
    }
}

impl Default for InitState {
    fn default() -> (s: Self)
        ensures
            s.is_blank(),
    {
        Self::new()
    }
}

/// Calls `std::str::from_utf8`: the text encoded by `bytes` when they are
/// valid UTF-8, as its documentation states; `None` otherwise.
#[verifier::external_body]
fn utf8_text(bytes: &[u8]) -> (text: Option<&str>)
    ensures
        text is Some <==> valid_utf8(bytes@),
        text matches Some(t) ==> t.spec_bytes() == bytes@,
{
    std::str::from_utf8(bytes).ok()
}

/// Whether the decoded content (`None` when it was no valid text, read as
/// the empty text) equals `expected`.
pub fn decoded_contents_eq(decoded: Option<&str>, expected: &str) -> (eq: bool)
    ensures
        eq == match decoded {
            Some(t) => t.spec_bytes() == expected.spec_bytes(),
            None => "".spec_bytes() == expected.spec_bytes(),
        },
{
    let text = match decoded {
        Some(t) => t,
        None => "",
    };
    str_equal(text, expected)
}

/// Whether the asset `content`, read as text, equals `expected`; content
/// that is no valid UTF-8 reads as the empty text.
pub fn asset_contents_eq(content: &[u8], expected: &str) -> (eq: bool)
    ensures
        eq == if valid_utf8(content@) {
            content@ == expected.spec_bytes()
        } else {
            "".spec_bytes() == expected.spec_bytes()
        },
{
    decoded_contents_eq(utf8_text(content), expected)
}

/// The result of a version check: out of date when the version file is
/// missing or its content is not `expected`.
pub open spec fn out_of_date(version_content: Option<&[u8]>, expected: &str) -> bool {
    match version_content {
        Some(content) => !(if valid_utf8(content@) {
            content@ == expected.spec_bytes()
        } else {
            "".spec_bytes() == expected.spec_bytes()
        }),
        None => true,
    }
}

/// Whether the asset archive is out of date: its version file is missing
/// or does not read `"1\n"`.
pub fn is_devilutionx_mpq_out_of_date(version_content: Option<&[u8]>) -> (b: bool)
    ensures
        b == out_of_date(version_content, DEVILUTIONX_MPQ_VERSION),
{
    match version_content {
        Some(content) => !asset_contents_eq(content, DEVILUTIONX_MPQ_VERSION),
        None => true,
    }
}

/// Whether the extra fonts are out of date: their version file is missing
/// or does not read `"1\n"`.
pub fn are_extra_fonts_out_of_date(version_content: Option<&[u8]>) -> (b: bool)
    ensures
        b == out_of_date(version_content, EXTRA_FONTS_VERSION),
{
    match version_content {
        Some(content) => !asset_contents_eq(content, EXTRA_FONTS_VERSION),
        None => true,
    }
}

/// Asset archives.
#[derive(Debug, Clone, Copy, PartialEq, Eq, Structural)]
pub enum MpqType {
    /// DevilutionX assets.
    DevilutionX,
    /// Full Diablo data.
    Diabdat,
    /// Shareware data.
    Spawn,
    /// Hellfire data.
    Hellfire,
    /// Hellfire monk.
    HfMonk,
    /// Hellfire music.
    HfMusic,
    /// Hellfire voices.
    HfVoice,
    /// Fonts.
    Fonts,
    /// Translation.
    Translation,
}

impl MpqType {
    /// The file name of this archive.
    pub open spec fn spec_filename(self) -> Seq<char> {
        match self {
            MpqType::DevilutionX => "devilutionx.mpq"@,
            MpqType::Diabdat => "diabdat.mpq"@,
            MpqType::Spawn => "spawn.mpq"@,
            MpqType::Hellfire => "hellfire.mpq"@,
            MpqType::HfMonk => "hfmonk.mpq"@,
            MpqType::HfMusic => "hfmusic.mpq"@,
            MpqType::HfVoice => "hfvoice.mpq"@,
            MpqType::Fonts => "fonts.mpq"@,
            MpqType::Translation => "lang.mpq"@,
        }
    }

    /// The file name of this archive.
    pub fn filename(&self) -> (name: &'static str)
        ensures
            name@ == self.spec_filename(),
    {
        match self {
            MpqType::DevilutionX => "devilutionx.mpq",
            MpqType::Diabdat => "diabdat.mpq",
            MpqType::Spawn => "spawn.mpq",
            MpqType::Hellfire => "hellfire.mpq",
            MpqType::HfMonk => "hfmonk.mpq",
            MpqType::HfMusic => "hfmusic.mpq",
            MpqType::HfVoice => "hfvoice.mpq",
            MpqType::Fonts => "fonts.mpq",
            MpqType::Translation => "lang.mpq",
        }
    }

    /// Whether the archive must be present: the assets and one game data
    /// archive (full or shareware).
    pub fn is_required(&self) -> (b: bool)
        ensures
            b == (*self == MpqType::DevilutionX || *self == MpqType::Diabdat || *self
                == MpqType::Spawn),
    {
        match self {
            MpqType::DevilutionX | MpqType::Diabdat | MpqType::Spawn => true,
            _ => false,
        }
    }
}

/// Start-up configuration.
#[derive(Debug, Clone)]
pub struct InitConfig {
    /// Data directory.
    pub data_path: String,
    /// Save directory.
    pub save_path: String,
    /// Configuration directory.
    pub config_path: String,
    /// Hellfire wanted.
    pub hellfire: bool,
    /// Shareware version.
    pub spawn: bool,
    /// Window title.
    pub window_title: String,
    /// Window width.
    pub window_width: u32,
    /// Window height.
    pub window_height: u32,
    /// Full screen.
    pub fullscreen: bool,
    /// Vertical synchronisation.
    pub vsync: bool,
}

impl Default for InitConfig {
    fn default() -> (c: Self)
        ensures
            c.data_path@.len() == 0,
            c.save_path@.len() == 0,
            c.config_path@.len() == 0,
            !c.hellfire,
            !c.spawn,
            c.window_title@ == "DevilutionX"@,
            c.window_width == 640,
            c.window_height == 480,
            !c.fullscreen,
            c.vsync,
    {
        InitConfig {
            data_path: String::new(),
            save_path: String::new(),
            config_path: String::new(),
            hellfire: false,
            spawn: false,
            window_title: String::from_str("DevilutionX"),
            window_width: 640,
            window_height: 480,
            fullscreen: false,
            vsync: true,
        }
    }
}

/// Starts the game with `config`, given whether its data directory exists
/// and which editions were found there: fails when the directory is
/// missing, else records the paths and the editions and marks archives,
/// fonts and game as loaded and active.
pub fn initialize(
    config: &InitConfig,
    data_dir_exists: bool,
    hellfire_detected: bool,
    spawn_detected: bool,
) -> (r: Result<InitState, InitError>)
    ensures
        !data_dir_exists ==> r == Err::<InitState, InitError>(InitError::DataDirNotFound),
        data_dir_exists ==> (r matches Ok(s) && {
            &&& s.is_active
            &&& s.mpq_loaded
            &&& s.fonts_loaded
            &&& s.hellfire_detected == hellfire_detected
            &&& s.spawn_detected == spawn_detected
            &&& s.devilutionx_mpq_version is None
            &&& s.fonts_version is None
            &&& s.data_path == Some(config.data_path)
            &&& s.save_path == Some(config.save_path)
            &&& s.config_path == Some(config.config_path)
        }),
{
    let mut state = InitState::new();
    if !data_dir_exists {
        return Err(InitError::DataDirNotFound);
    }
    state.data_path = Some(config.data_path.clone());
    state.save_path = Some(config.save_path.clone());
    state.config_path = Some(config.config_path.clone());
    state.hellfire_detected = hellfire_detected;
    state.spawn_detected = spawn_detected;
    state.mpq_loaded = true;
    state.fonts_loaded = true;
    state.is_active = true;
    Ok(state)
}

/// Marks the game inactive and the archives and fonts unloaded.
pub fn cleanup(state: &mut InitState)
    ensures
        *final(state) == (InitState {
            is_active: false,
            mpq_loaded: false,
            fonts_loaded: false,
            ..*old(state)
        }),
{
    state.is_active = false;
    state.mpq_loaded = false;
    state.fonts_loaded = false;
}

} // verus!
