//! Keyboard and mouse state, and the game actions it asks for.
//!
//! Keys are SDL key codes and mouse buttons SDL button numbers.

use vstd::prelude::*;
use std::collections::HashSet;

verus! {

broadcast use vstd::std_specs::hash::group_hash_axioms;

/// Key code of W.
pub const KEY_W: i32 = 119;
/// Key code of A.
pub const KEY_A: i32 = 97;
/// Key code of S.
pub const KEY_S: i32 = 115;
/// Key code of D.
pub const KEY_D: i32 = 100;
/// Key code of E.
pub const KEY_E: i32 = 101;
/// Key code of I.
pub const KEY_I: i32 = 105;
/// Key code of C.
pub const KEY_C: i32 = 99;
/// Key code of B.
pub const KEY_B: i32 = 98;
/// Key code of Q.
pub const KEY_Q: i32 = 113;
/// Key code of P.
pub const KEY_P: i32 = 112;
/// Key code of Tab.
pub const KEY_TAB: i32 = 9;
/// Key code of Space.
pub const KEY_SPACE: i32 = 32;
/// Key code of Escape.
pub const KEY_ESCAPE: i32 = 27;
/// Key code of T.
pub const KEY_T: i32 = 116;
/// Key code of F.
pub const KEY_F: i32 = 102;
/// Key code of Return.
pub const KEY_RETURN: i32 = 13;
/// Key code of the second Return key.
pub const KEY_RETURN2: i32 = 158;
/// Key code of the keypad's Enter.
pub const KEY_KP_ENTER: i32 = 1073741912;
/// Key code of F5.
pub const KEY_F5: i32 = 1073741886;
/// Key code of F9.
pub const KEY_F9: i32 = 1073741890;
/// Key code of F11.
pub const KEY_F11: i32 = 1073741892;
/// Key code of the right arrow.
pub const KEY_RIGHT: i32 = 1073741903;
/// Key code of the left arrow.
pub const KEY_LEFT: i32 = 1073741904;
/// Key code of the down arrow.
pub const KEY_DOWN: i32 = 1073741905;
/// Key code of the up arrow.
pub const KEY_UP: i32 = 1073741906;

/// Key code of the digit 1; the digits up to 9 follow it.
pub const KEY_NUM1: i32 = 49;
/// Key code of the digit 9.
pub const KEY_NUM9: i32 = 57;
/// Key code of the keypad's 1; the keypad digits up to 9 follow it.
pub const KEY_KP1: i32 = 1073741913;
/// Key code of the keypad's 9.
pub const KEY_KP9: i32 = 1073741921;

/// Number of the left mouse button.
pub const MOUSE_LEFT: u8 = 1;
/// Number of the middle mouse button.
pub const MOUSE_MIDDLE: u8 = 2;
/// Number of the right mouse button.
pub const MOUSE_RIGHT: u8 = 3;

/// Actions the player asks for.
#[derive(Debug, Clone, Copy, PartialEq, Eq, Hash, Structural)]
pub enum GameAction {
    /// Move up.
    MoveUp,
    /// Move down.
    MoveDown,
    /// Move left.
    MoveLeft,
    /// Move right.
    MoveRight,
    /// Move up and left.
    MoveUpLeft,
    /// Move up and right.
    MoveUpRight,
    /// Move down and left.
    MoveDownLeft,
    /// Move down and right.
    MoveDownRight,
    /// Attack.
    Attack,
    /// Interact.
    Interact,
    /// Open the inventory.
    Inventory,
    /// Open the character sheet.
    CharacterSheet,
    /// Open the spell book.
    SpellBook,
    /// Show the map.
    Automap,
    /// Open the quest log.
    QuestLog,
    /// Pause.
    Pause,
    /// Quit.
    Quit,
    /// Switch full screen.
    ToggleFullscreen,
    /// The left mouse button's action.
    PrimaryAction,
    /// The right mouse button's action.
    SecondaryAction,
}

/// A mouse position.
#[derive(Debug, Clone, Copy, PartialEq, Eq, Default, Structural)]
pub struct Point {
    /// Horizontal position.
    pub x: i32,
    /// Vertical position.
    pub y: i32,
}

impl Point {
    /// The point `(x, y)`.
    pub fn new(x: i32, y: i32) -> (p: Self)
        ensures
            p.x == x,
            p.y == y,
    {
        Point { x, y }
    }
}

/// The movement asked for by the keys held in `down`: -1, 0 or 1 along
/// each axis, up and left being negative.
pub open spec fn movement(down: Set<i32>) -> (int, int) {
    let dy = (if down.contains(KEY_W) || down.contains(KEY_UP) { -1int } else { 0int }) + (if down.contains(
        KEY_S,
    ) || down.contains(KEY_DOWN) {
        1int
    } else {
        0int
    });
    let dx = (if down.contains(KEY_A) || down.contains(KEY_LEFT) { -1int } else { 0int }) + (if down.contains(
        KEY_D,
    ) || down.contains(KEY_RIGHT) {
        1int
    } else {
        0int
    });
    (dx, dy)
}

/// The movement action of a direction, none when standing still.
pub open spec fn move_action(dx: int, dy: int) -> Seq<GameAction> {
    if dx == -1 && dy == -1 {
        seq![GameAction::MoveUpLeft]
    } else if dx == 0 && dy == -1 {
        seq![GameAction::MoveUp]
    } else if dx == 1 && dy == -1 {
        seq![GameAction::MoveUpRight]
    } else if dx == -1 && dy == 0 {
        seq![GameAction::MoveLeft]
    } else if dx == 1 && dy == 0 {
        seq![GameAction::MoveRight]
    } else if dx == -1 && dy == 1 {
        seq![GameAction::MoveDownLeft]
    } else if dx == 0 && dy == 1 {
        seq![GameAction::MoveDown]
    } else if dx == 1 && dy == 1 {
        seq![GameAction::MoveDownRight]
    } else {
        Seq::empty()
    }
}

/// `a` alone when `cond` holds, else nothing.
pub open spec fn when(cond: bool, a: GameAction) -> Seq<GameAction> {
    if cond {
        seq![a]
    } else {
        Seq::empty()
    }
}

/// The actions asked for, in order: the movement of the held keys, then
/// one action per key pressed this frame (Space, E, I, C, B, Tab, Q,
/// Escape, P, F11), then the left and right mouse buttons pressed this
/// frame.
pub open spec fn actions_spec(down: Set<i32>, pressed: Set<i32>, mouse_pressed: Set<u8>) -> Seq<
    GameAction,
> {
    move_action(movement(down).0, movement(down).1) + when(
        pressed.contains(KEY_SPACE),
        GameAction::Attack,
    ) + when(pressed.contains(KEY_E), GameAction::Interact) + when(
        pressed.contains(KEY_I),
        GameAction::Inventory,
    ) + when(pressed.contains(KEY_C), GameAction::CharacterSheet) + when(
        pressed.contains(KEY_B),
        GameAction::SpellBook,
    ) + when(pressed.contains(KEY_TAB), GameAction::Automap) + when(
        pressed.contains(KEY_Q),
        GameAction::QuestLog,
    ) + when(pressed.contains(KEY_ESCAPE), GameAction::Quit) + when(
        pressed.contains(KEY_P),
        GameAction::Pause,
    ) + when(pressed.contains(KEY_F11), GameAction::ToggleFullscreen) + when(
        mouse_pressed.contains(MOUSE_LEFT),
        GameAction::PrimaryAction,
    ) + when(mouse_pressed.contains(MOUSE_RIGHT), GameAction::SecondaryAction)
}

/// Whether `b` is `a` after `key` went down: held now, pressed this frame
/// when it was not held, the rest unchanged.
pub open spec fn key_down_step(a: InputSystem, b: InputSystem, key: i32) -> bool {
    &&& b.down() == a.down().insert(key)
    &&& b.pressed() == (if a.down().contains(key) { a.pressed() } else { a.pressed().insert(key) })
    &&& b.released() == a.released()
    &&& b.buttons() == a.buttons()
    &&& b.buttons_pressed() == a.buttons_pressed()
    &&& b.buttons_released() == a.buttons_released()
    &&& b.pos() == a.pos()
    &&& b.prev_pos() == a.prev_pos()
}

/// Whether `b` is `a` after `key` went up: no longer held, released this
/// frame when it was held, the rest unchanged.
pub open spec fn key_up_step(a: InputSystem, b: InputSystem, key: i32) -> bool {
    &&& b.down() == a.down().remove(key)
    &&& b.released() == (if a.down().contains(key) { a.released().insert(key) } else { a.released() })
    &&& b.pressed() == a.pressed()
    &&& b.buttons() == a.buttons()
    &&& b.buttons_pressed() == a.buttons_pressed()
    &&& b.buttons_released() == a.buttons_released()
    &&& b.pos() == a.pos()
    &&& b.prev_pos() == a.prev_pos()
}

/// Keyboard and mouse state: what is held, and what went down or up this
/// frame.
pub struct InputSystem {
    keys_down: HashSet<i32>,
    keys_pressed: HashSet<i32>,
    keys_released: HashSet<i32>,
    mouse_pos: Point,
    prev_mouse_pos: Point,
    mouse_buttons: HashSet<u8>,
    mouse_pressed: HashSet<u8>,
    mouse_released: HashSet<u8>,
}

impl InputSystem {
    /// Keys held.
    pub closed spec fn down(&self) -> Set<i32> {
        self.keys_down@
    }

    /// Keys that went down this frame.
    pub closed spec fn pressed(&self) -> Set<i32> {
        self.keys_pressed@
    }

    /// Keys that went up this frame.
    pub closed spec fn released(&self) -> Set<i32> {
        self.keys_released@
    }

    /// Mouse buttons held.
    pub closed spec fn buttons(&self) -> Set<u8> {
        self.mouse_buttons@
    }

    /// Mouse buttons that went down this frame.
    pub closed spec fn buttons_pressed(&self) -> Set<u8> {
        self.mouse_pressed@
    }

    /// Mouse buttons that went up this frame.
    pub closed spec fn buttons_released(&self) -> Set<u8> {
        self.mouse_released@
    }

    /// The mouse position.
    pub closed spec fn pos(&self) -> Point {
        self.mouse_pos
    }

    /// The mouse position at the start of the frame.
    pub closed spec fn prev_pos(&self) -> Point {
        self.prev_mouse_pos
    }

    /// Nothing held or changed, the mouse at the origin.
    pub fn new() -> (s: Self)
        ensures
            s.down().is_empty(),
            s.pressed().is_empty(),
            s.released().is_empty(),
            s.buttons().is_empty(),
            s.buttons_pressed().is_empty(),
            s.buttons_released().is_empty(),
            s.pos() == (Point { x: 0, y: 0 }),
            s.prev_pos() == (Point { x: 0, y: 0 }),
    {
        InputSystem {
            keys_down: HashSet::new(),
            keys_pressed: HashSet::new(),
            keys_released: HashSet::new(),
            mouse_pos: Point { x: 0, y: 0 },
            prev_mouse_pos: Point { x: 0, y: 0 },
            mouse_buttons: HashSet::new(),
            mouse_pressed: HashSet::new(),
            mouse_released: HashSet::new(),
        }
    }

    /// Starts a frame: forgets what went down or up, and remembers where
    /// the mouse is.
    pub fn begin_frame(&mut self)
        ensures
            final(self).down() == old(self).down(),
            final(self).buttons() == old(self).buttons(),
            final(self).pressed().is_empty(),
            final(self).released().is_empty(),
            final(self).buttons_pressed().is_empty(),
            final(self).buttons_released().is_empty(),
            final(self).pos() == old(self).pos(),
            final(self).prev_pos() == old(self).pos(),
    {
        self.keys_pressed.clear();
        self.keys_released.clear();
        self.mouse_pressed.clear();
        self.mouse_released.clear();
        self.prev_mouse_pos = self.mouse_pos;
    }

    /// A key went down; it counts as pressed this frame when it was not
    /// held.
    pub fn on_key_down(&mut self, key: i32)
        ensures
            key_down_step(*old(self), *final(self), key),
    {
        if self.keys_down.insert(key) {
            self.keys_pressed.insert(key);
        }
    }

    /// A key went up; it counts as released this frame when it was held.
    pub fn on_key_up(&mut self, key: i32)
        ensures
            key_up_step(*old(self), *final(self), key),
    {
        if self.keys_down.remove(&key) {
            self.keys_released.insert(key);
        }
    }

    /// A mouse button went down; it counts as pressed this frame when it
    /// was not held.
    pub fn on_mouse_button_down(&mut self, button: u8)
        ensures
            final(self).buttons() == old(self).buttons().insert(button),
            final(self).buttons_pressed() == (if old(self).buttons().contains(button) {
                old(self).buttons_pressed()
            } else {
                old(self).buttons_pressed().insert(button)
            }),
            final(self).buttons_released() == old(self).buttons_released(),
            final(self).down() == old(self).down(),
            final(self).pressed() == old(self).pressed(),
            final(self).released() == old(self).released(),
            final(self).pos() == old(self).pos(),
            final(self).prev_pos() == old(self).prev_pos(),
    {
        if self.mouse_buttons.insert(button) {
            self.mouse_pressed.insert(button);
        }
    }

    /// A mouse button went up; it counts as released this frame when it
    /// was held.
    pub fn on_mouse_button_up(&mut self, button: u8)
        ensures
            final(self).buttons() == old(self).buttons().remove(button),
            final(self).buttons_released() == (if old(self).buttons().contains(button) {
                old(self).buttons_released().insert(button)
            } else {
                old(self).buttons_released()
            }),
            final(self).buttons_pressed() == old(self).buttons_pressed(),
            final(self).down() == old(self).down(),
            final(self).pressed() == old(self).pressed(),
            final(self).released() == old(self).released(),
            final(self).pos() == old(self).pos(),
            final(self).prev_pos() == old(self).prev_pos(),
    {
        if self.mouse_buttons.remove(&button) {
            self.mouse_released.insert(button);
        }
    }

    /// The mouse moved to `(x, y)`.
    pub fn on_mouse_move(&mut self, x: i32, y: i32)
        ensures
            final(self).pos() == (Point { x, y }),
            final(self).prev_pos() == old(self).prev_pos(),
            final(self).down() == old(self).down(),
            final(self).pressed() == old(self).pressed(),
            final(self).released() == old(self).released(),
            final(self).buttons() == old(self).buttons(),
            final(self).buttons_pressed() == old(self).buttons_pressed(),
            final(self).buttons_released() == old(self).buttons_released(),
    {
        self.mouse_pos = Point::new(x, y);
    }

    /// Whether `key` is held.
    pub fn is_key_down(&self, key: i32) -> (b: bool)
        ensures
            b == self.down().contains(key),
    {
        self.keys_down.contains(&key)
    }

    /// Whether `key` went down this frame.
    pub fn is_key_pressed(&self, key: i32) -> (b: bool)
        ensures
            b == self.pressed().contains(key),
    {
        self.keys_pressed.contains(&key)
    }

    /// Whether `key` went up this frame.
    pub fn is_key_released(&self, key: i32) -> (b: bool)
        ensures
            b == self.released().contains(key),
    {
        self.keys_released.contains(&key)
    }

    /// Whether `button` is held.
    pub fn is_mouse_button_down(&self, button: u8) -> (b: bool)
        ensures
            b == self.buttons().contains(button),
    {
        self.mouse_buttons.contains(&button)
    }

    /// Whether `button` went down this frame.
    pub fn is_mouse_button_pressed(&self, button: u8) -> (b: bool)
        ensures
            b == self.buttons_pressed().contains(button),
    {
        self.mouse_pressed.contains(&button)
    }

    /// The mouse position.
    pub fn mouse_pos(&self) -> (p: Point)
        ensures
            p == self.pos(),
    {
        self.mouse_pos
    }

    /// How far the mouse moved this frame.
    pub fn mouse_delta(&self) -> (d: Point)
        requires
            i32::MIN <= self.pos().x - self.prev_pos().x <= i32::MAX,
            i32::MIN <= self.pos().y - self.prev_pos().y <= i32::MAX,
        ensures
            d.x == self.pos().x - self.prev_pos().x,
            d.y == self.pos().y - self.prev_pos().y,
    {
        Point::new(self.mouse_pos.x - self.prev_mouse_pos.x, self.mouse_pos.y - self.prev_mouse_pos.y)
    }

    /// The direction the held keys ask for: -1, 0 or 1 along each axis.
    pub fn get_movement_direction(&self) -> (r: (i32, i32))
        ensures
            r.0 == movement(self.down()).0,
            r.1 == movement(self.down()).1,
    {
        let mut dx: i32 = 0;
        let mut dy: i32 = 0;
        if self.is_key_down(KEY_W) || self.is_key_down(KEY_UP) {
            dy = dy - 1;
        }
        if self.is_key_down(KEY_S) || self.is_key_down(KEY_DOWN) {
            dy = dy + 1;
        }
        if self.is_key_down(KEY_A) || self.is_key_down(KEY_LEFT) {
            dx = dx - 1;
        }
        if self.is_key_down(KEY_D) || self.is_key_down(KEY_RIGHT) {
            dx = dx + 1;
        }
        (dx, dy)
    }

    /// The actions asked for this frame (see `actions_spec`).
    pub fn get_actions(&self) -> (actions: Vec<GameAction>)
        ensures
            actions@ == actions_spec(self.down(), self.pressed(), self.buttons_pressed()),
    {
        let mut actions: Vec<GameAction> = Vec::new();
        let (move_x, move_y) = self.get_movement_direction();
        if move_x == -1 && move_y == -1 {
            actions.push(GameAction::MoveUpLeft);
        } else if move_x == 0 && move_y == -1 {
            actions.push(GameAction::MoveUp);
        } else if move_x == 1 && move_y == -1 {
            actions.push(GameAction::MoveUpRight);
        } else if move_x == -1 && move_y == 0 {
            actions.push(GameAction::MoveLeft);
        } else if move_x == 1 && move_y == 0 {
            actions.push(GameAction::MoveRight);
        } else if move_x == -1 && move_y == 1 {
            actions.push(GameAction::MoveDownLeft);
        } else if move_x == 0 && move_y == 1 {
            actions.push(GameAction::MoveDown);
        } else if move_x == 1 && move_y == 1 {
            actions.push(GameAction::MoveDownRight);
        }
        let ghost s0 = actions@;
        assert(s0 =~= move_action(movement(self.down()).0, movement(self.down()).1));
        self.push_if(&mut actions, self.is_key_pressed(KEY_SPACE), GameAction::Attack);
        self.push_if(&mut actions, self.is_key_pressed(KEY_E), GameAction::Interact);
        self.push_if(&mut actions, self.is_key_pressed(KEY_I), GameAction::Inventory);
        self.push_if(&mut actions, self.is_key_pressed(KEY_C), GameAction::CharacterSheet);
        self.push_if(&mut actions, self.is_key_pressed(KEY_B), GameAction::SpellBook);
        self.push_if(&mut actions, self.is_key_pressed(KEY_TAB), GameAction::Automap);
        self.push_if(&mut actions, self.is_key_pressed(KEY_Q), GameAction::QuestLog);
        self.push_if(&mut actions, self.is_key_pressed(KEY_ESCAPE), GameAction::Quit);
        self.push_if(&mut actions, self.is_key_pressed(KEY_P), GameAction::Pause);
        self.push_if(&mut actions, self.is_key_pressed(KEY_F11), GameAction::ToggleFullscreen);
        self.push_if(&mut actions, self.is_mouse_button_pressed(MOUSE_LEFT), GameAction::PrimaryAction);
        self.push_if(&mut actions, self.is_mouse_button_pressed(MOUSE_RIGHT), GameAction::SecondaryAction);
        assert(actions@ =~= actions_spec(self.down(), self.pressed(), self.buttons_pressed()));
        actions
    }

    /// Appends `a` to `actions` when `cond` holds.
    fn push_if(&self, actions: &mut Vec<GameAction>, cond: bool, a: GameAction)
        ensures
            final(actions)@ == old(actions)@ + when(cond, a),
    {
        if cond {
            actions.push(a);
        }
        assert(final(actions)@ =~= old(actions)@ + when(cond, a));
    }
}

/// Pressing and then releasing a key that was not held leaves the held keys
/// as they were; the key counts as pressed and as released in that frame.
pub proof fn lemma_key_down_then_up(down: Set<i32>, pressed: Set<i32>, released: Set<i32>, key: i32)
    requires
        !down.contains(key),
    ensures
        down.insert(key).remove(key) == down,
        pressed.insert(key).contains(key),
        released.insert(key).contains(key),
{
    assert(down.insert(key).remove(key) =~= down);
}

impl Default for InputSystem {
    /// Nothing held or changed, the mouse at the origin.
    fn default() -> (s: Self)
        ensures
            s.down().is_empty(),
            s.pressed().is_empty(),
            s.buttons().is_empty(),
            s.pos() == (Point { x: 0, y: 0 }),
    {
        Self::new()
    }
}

} // verus!
