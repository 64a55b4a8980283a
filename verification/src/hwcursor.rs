//! Hardware cursor: which cursor is shown and whether the hardware draws it.

use vstd::prelude::*;

verus! {

/// Kinds of cursor.
#[derive(Debug, Clone, Copy, PartialEq, Eq, Structural)]
pub enum CursorType {
    /// Not known.
    Unknown,
    /// The interface pointer.
    UserInterface,
    /// A game sprite.
    Game,
}

impl Default for CursorType {
    fn default() -> (t: Self)
        ensures
            t == CursorType::Unknown,
    {
        CursorType::Unknown
    }
}

/// A cursor and its hardware state.
#[derive(Debug, Clone)]
pub struct CursorInfo {
    cursor_type: CursorType,
    id: i32,
    enabled: bool,
    needs_reinitialization: bool,
}

impl CursorInfo {
    /// The kind of cursor.
    pub closed spec fn spec_type(&self) -> CursorType {
        self.cursor_type
    }

    /// The sprite of a game cursor.
    pub closed spec fn spec_id(&self) -> i32 {
        self.id
    }

    /// Whether the hardware draws it.
    pub closed spec fn spec_enabled(&self) -> bool {
        self.enabled
    }

    /// Whether it must be set up again.
    pub closed spec fn spec_needs_reinitialization(&self) -> bool {
        self.needs_reinitialization
    }

    /// Two cursors are the same cursor: of the same kind, and, for game
    /// cursors, of the same sprite.
    pub open spec fn same_cursor(&self, other: &CursorInfo) -> bool {
        self.spec_type() == other.spec_type() && (self.spec_type() != CursorType::Game
            || self.spec_id() == other.spec_id())
    }

    /// An unknown cursor with nothing set.
    pub fn new() -> (c: Self)
        ensures
            c.spec_type() == CursorType::Unknown,
            c.spec_id() == 0,
            !c.spec_enabled(),
            !c.spec_needs_reinitialization(),
    {
        CursorInfo {
            cursor_type: CursorType::Unknown,
            id: 0,
            enabled: false,
            needs_reinitialization: false,
        }
    }

    /// The interface cursor.
    pub fn user_interface_cursor() -> (c: Self)
        ensures
            c.spec_type() == CursorType::UserInterface,
            c.spec_id() == 0,
            !c.spec_enabled(),
            !c.spec_needs_reinitialization(),
    {
        CursorInfo {
            cursor_type: CursorType::UserInterface,
            id: 0,
            enabled: false,
            needs_reinitialization: false,
        }
    }

    /// The game cursor of sprite `game_sprite_id`.
    pub fn game_cursor(game_sprite_id: i32) -> (c: Self)
        ensures
            c.spec_type() == CursorType::Game,
            c.spec_id() == game_sprite_id,
            !c.spec_enabled(),
            !c.spec_needs_reinitialization(),
    {
        CursorInfo {
            cursor_type: CursorType::Game,
            id: game_sprite_id,
            enabled: false,
            needs_reinitialization: false,
        }
    }

    /// An unknown cursor.
    pub fn unknown_cursor() -> (c: Self)
        ensures
            c.spec_type() == CursorType::Unknown,
            c.spec_id() == 0,
            !c.spec_enabled(),
            !c.spec_needs_reinitialization(),
    {
        CursorInfo {
            cursor_type: CursorType::Unknown,
            id: 0,
            enabled: false,
            needs_reinitialization: false,
        }
    }

    /// The kind of cursor.
    pub fn cursor_type(&self) -> (t: CursorType)
        ensures
            t == self.spec_type(),
    {
        self.cursor_type
    }

    /// The sprite of a game cursor.
    pub fn id(&self) -> (i: i32)
        ensures
            i == self.spec_id(),
    {
        self.id
    }

    /// Whether the hardware draws the cursor.
    pub fn enabled(&self) -> (b: bool)
        ensures
            b == self.spec_enabled(),
    {
        self.enabled
    }

    /// Sets whether the hardware draws the cursor.
    pub fn set_enabled(&mut self, value: bool)
        ensures
            final(self).spec_enabled() == value,
            final(self).spec_type() == old(self).spec_type(),
            final(self).spec_id() == old(self).spec_id(),
            final(self).spec_needs_reinitialization() == old(self).spec_needs_reinitialization(),
    {
        self.enabled = value;
    }

    /// Whether the cursor must be set up again.
    pub fn needs_reinitialization(&self) -> (b: bool)
        ensures
            b == self.spec_needs_reinitialization(),
    {
        self.needs_reinitialization
    }

    /// Sets whether the cursor must be set up again.
    pub fn set_needs_reinitialization(&mut self, value: bool)
        ensures
            final(self).spec_needs_reinitialization() == value,
            final(self).spec_type() == old(self).spec_type(),
            final(self).spec_id() == old(self).spec_id(),
            final(self).spec_enabled() == old(self).spec_enabled(),
    {
        self.needs_reinitialization = value;
    }
}

impl Default for CursorInfo {
    fn default() -> (c: Self)
        ensures
            c.spec_type() == CursorType::Unknown,
            c.spec_id() == 0,
            !c.spec_enabled(),
            !c.spec_needs_reinitialization(),
    {
        Self::new()
    }
}

impl PartialEq for CursorInfo {
    fn eq(&self, other: &Self) -> (r: bool) {
        self.cursor_type == other.cursor_type && (self.cursor_type != CursorType::Game || self.id
            == other.id)
    }
}

impl vstd::std_specs::cmp::PartialEqSpecImpl for CursorInfo {
    open spec fn obeys_eq_spec() -> bool {
        true
    }

    open spec fn eq_spec(&self, other: &CursorInfo) -> bool {
        self.same_cursor(other)
    }
}

/// Cursor equality is an equivalence: reflexive, symmetric and transitive.
pub proof fn lemma_cursor_equality_is_equivalence(a: CursorInfo, b: CursorInfo, c: CursorInfo)
    ensures
        a.same_cursor(&a),
        a.same_cursor(&b) ==> b.same_cursor(&a),
        a.same_cursor(&b) && b.same_cursor(&c) ==> a.same_cursor(&c),
{
}

/// Whether the settings ask for a hardware cursor: never, as no hardware
/// cursor support is built in.
pub fn is_hardware_cursor_enabled() -> (b: bool)
    ensures
        !b,
{
    false
}

/// The cursor as it is stored when set as the hardware cursor: no longer
/// waiting to be set up again, and, since no kind of cursor can be drawn by
/// the hardware here, not drawn by it.
pub fn prepare_hardware_cursor(cursor_info: CursorInfo) -> (c: CursorInfo)
    ensures
        c.spec_type() == cursor_info.spec_type(),
        c.spec_id() == cursor_info.spec_id(),
        !c.spec_enabled(),
        !c.spec_needs_reinitialization(),
{
    let mut c = cursor_info;
    c.set_needs_reinitialization(false);
    match c.cursor_type() {
        CursorType::Game => c.set_enabled(false),
        CursorType::UserInterface => c.set_enabled(false),
        CursorType::Unknown => c.set_enabled(false),
    }
    c
}

/// Whether the hardware cursor shows: never, as no hardware cursor support
/// is built in.
pub fn is_hardware_cursor_visible() -> (b: bool)
    ensures
        !b,
{
    false
}

/// A copy of the current cursor.
pub fn get_current_cursor_info(current: &CursorInfo) -> (c: CursorInfo)
    ensures
        c == *current,
{
    CursorInfo {
        cursor_type: current.cursor_type,
        id: current.id,
        enabled: current.enabled,
        needs_reinitialization: current.needs_reinitialization,
    }
}

/// Replaces the current cursor by `info`.
pub fn set_current_cursor_info(current: &mut CursorInfo, info: CursorInfo)
    ensures
        *final(current) == info,
{
    *current = info;
}

/// Whether the hardware draws the current cursor.
pub fn is_hardware_cursor(current: &CursorInfo) -> (b: bool)
    ensures
        b == current.spec_enabled(),
{
    current.enabled()
}

/// Makes `cursor_info`, prepared (see `prepare_hardware_cursor`), the
/// current cursor, hiding the hardware cursor when the hardware does not
/// draw it.
pub fn set_hardware_cursor(current: &mut CursorInfo, cursor_info: CursorInfo)
    ensures
        final(current).spec_type() == cursor_info.spec_type(),
        final(current).spec_id() == cursor_info.spec_id(),
        !final(current).spec_enabled(),
        !final(current).spec_needs_reinitialization(),
    decreases 1int,
{
    let c = prepare_hardware_cursor(cursor_info);
    if !c.enabled() {
        set_hardware_cursor_visible(current, false);
    }
    *current = c;
}

/// Shows or hides the hardware cursor; when it is to show and the current
/// cursor waits to be set up again, sets it up again first. As the hardware
/// cursor never shows, hiding it does nothing.
pub fn set_hardware_cursor_visible(current: &mut CursorInfo, visible: bool)
    ensures
        !visible ==> *final(current) == *old(current),
        visible && !old(current).spec_needs_reinitialization() ==> *final(current) == *old(current),
        visible && old(current).spec_needs_reinitialization() ==> {
            &&& final(current).spec_type() == old(current).spec_type()
            &&& final(current).spec_id() == old(current).spec_id()
            &&& !final(current).spec_enabled()
            &&& !final(current).spec_needs_reinitialization()
        },
    decreases (if visible { 3int } else { 0int }),
{
    if is_hardware_cursor_visible() == visible {
        return;
    }
    if visible {
        if current.needs_reinitialization() {
            do_reinitialize_hardware_cursor(current);
        }
    }
}

/// Sets the current cursor up again as the hardware cursor.
pub fn do_reinitialize_hardware_cursor(current: &mut CursorInfo)
    ensures
        final(current).spec_type() == old(current).spec_type(),
        final(current).spec_id() == old(current).spec_id(),
        !final(current).spec_enabled(),
        !final(current).spec_needs_reinitialization(),
    decreases 2int,
{
    let info = get_current_cursor_info(current);
    set_hardware_cursor(current, info);
}

/// Asks for the hardware cursor to be set up again: at once when it shows,
/// else by marking the current cursor to be set up when it next shows.
pub fn reinitialize_hardware_cursor(current: &mut CursorInfo)
    ensures
        final(current).spec_needs_reinitialization(),
        final(current).spec_type() == old(current).spec_type(),
        final(current).spec_id() == old(current).spec_id(),
        final(current).spec_enabled() == old(current).spec_enabled(),
{
    if is_hardware_cursor_visible() {
        do_reinitialize_hardware_cursor(current);
    } else {
        current.set_needs_reinitialization(true);
    }
}

/// Where the hot point of a cursor lies.
#[derive(Debug, Clone, Copy, PartialEq, Eq, Structural)]
pub enum HotpointPosition {
    /// Top left corner.
    TopLeft,
    /// Centre.
    Center,
}

impl Default for HotpointPosition {
    fn default() -> (p: Self)
        ensures
            p == HotpointPosition::TopLeft,
    {
        HotpointPosition::TopLeft
    }
}

/// Owner of the hardware cursor state.
#[derive(Debug)]
pub struct HardwareCursorManager {
    current: CursorInfo,
    visible: bool,
}

impl HardwareCursorManager {
    /// The current cursor.
    pub closed spec fn spec_current(&self) -> CursorInfo {
        self.current
    }

    /// Whether the cursor shows.
    pub closed spec fn spec_visible(&self) -> bool {
        self.visible
    }

    /// An unknown, hidden cursor.
    pub fn new() -> (m: Self)
        ensures
            m.spec_current().spec_type() == CursorType::Unknown,
            m.spec_current().spec_id() == 0,
            !m.spec_current().spec_enabled(),
            !m.spec_current().spec_needs_reinitialization(),
            !m.spec_visible(),
    {
        HardwareCursorManager { current: CursorInfo::new(), visible: false }
    }

    /// The current cursor.
    pub fn current(&self) -> (c: &CursorInfo)
        ensures
            *c == self.spec_current(),
    {
        &self.current
    }

    /// Whether the cursor shows.
    pub fn is_visible(&self) -> (b: bool)
        ensures
            b == self.spec_visible(),
    {
        self.visible
    }

    /// Shows or hides the cursor.
    pub fn set_visible(&mut self, visible: bool)
        ensures
            final(self).spec_visible() == visible,
            final(self).spec_current() == old(self).spec_current(),
    {
        self.visible = visible;
    }

    /// Sets the cursor.
    pub fn set_cursor(&mut self, info: CursorInfo)
        ensures
            final(self).spec_current() == info,
            final(self).spec_visible() == old(self).spec_visible(),
    {
        self.current = info;
    }

    /// Whether the hardware draws the current cursor.
    pub fn is_enabled(&self) -> (b: bool)
        ensures
            b == self.spec_current().spec_enabled(),
    {
        self.current.enabled()
    }
}

impl Default for HardwareCursorManager {
    fn default() -> (m: Self)
        ensures
            m.spec_current().spec_type() == CursorType::Unknown,
            !m.spec_visible(),
    {
        Self::new()
    }
}

} // verus!
