//! In-game option menu: items with flag bits, sliders, keyboard and mouse
//! navigation.

use vstd::prelude::*;
use crate::numeric::{trunc_div, clamp_int, div_i32, clamp_i32};

verus! {

/// Width of a slider item in pixels.
pub const SLIDER_ITEM_WIDTH: i32 = 490;

/// Top position of the menu.
pub const GMENU_TOP: i32 = 117;

/// Height of one menu item.
pub const GMENU_ITEM_HEIGHT: i32 = 45;

/// Number of slider steps.
pub const SLIDER_STEPS: u32 = 10;

/// Flag bit: the item is enabled.
pub const FLAG_ENABLED: u32 = 1;
/// Flag bits: the item is a slider.
pub const FLAG_SLIDER: u32 = 2;
/// Flag bits: the item is a multiple choice.
pub const FLAG_SELECT: u32 = 3;
/// Flag bit: the item can be selected.
pub const FLAG_SELECTABLE: u32 = 4;
/// Flag bit: the item is highlighted.
pub const FLAG_HIGHLIGHTED: u32 = 8;
/// Flag bit: the item is disabled.
pub const FLAG_DISABLED: u32 = 16;

/// A set of menu item flag bits.
#[derive(Debug, Clone, Copy, PartialEq, Eq, Structural)]
pub struct MenuItemFlags(pub u32);

/// Whether `flags` shares a bit with `other`.
pub open spec fn has_bits(flags: u32, other: u32) -> bool {
    flags & other != 0
}

impl MenuItemFlags {
    /// The enabled flag.
    pub fn enabled() -> (f: Self)
        ensures
            f.0 == FLAG_ENABLED,
    {
        MenuItemFlags(FLAG_ENABLED)
    }

    /// The slider flag.
    pub fn slider() -> (f: Self)
        ensures
            f.0 == FLAG_SLIDER,
    {
        MenuItemFlags(FLAG_SLIDER)
    }

    /// The multiple-choice flag.
    pub fn select() -> (f: Self)
        ensures
            f.0 == FLAG_SELECT,
    {
        MenuItemFlags(FLAG_SELECT)
    }

    /// The selectable flag.
    pub fn selectable() -> (f: Self)
        ensures
            f.0 == FLAG_SELECTABLE,
    {
        MenuItemFlags(FLAG_SELECTABLE)
    }

    /// The highlighted flag.
    pub fn highlighted() -> (f: Self)
        ensures
            f.0 == FLAG_HIGHLIGHTED,
    {
        MenuItemFlags(FLAG_HIGHLIGHTED)
    }

    /// The disabled flag.
    pub fn disabled() -> (f: Self)
        ensures
            f.0 == FLAG_DISABLED,
    {
        MenuItemFlags(FLAG_DISABLED)
    }

    /// Whether any bit of `other` is set.
    pub fn contains(&self, other: MenuItemFlags) -> (b: bool)
        ensures
            b == has_bits(self.0, other.0),
    {
        (self.0 & other.0) != 0
    }

    /// Sets the bits of `other`.
    pub fn set(&mut self, other: MenuItemFlags)
        ensures
            final(self).0 == old(self).0 | other.0,
    {
        self.0 = self.0 | other.0;
    }

    /// Clears the bits of `other`.
    pub fn clear(&mut self, other: MenuItemFlags)
        ensures
            final(self).0 == old(self).0 & !other.0,
    {
        self.0 = self.0 & !other.0;
    }

    /// Flips the bits of `other`.
    pub fn toggle(&mut self, other: MenuItemFlags)
        ensures
            final(self).0 == old(self).0 ^ other.0,
    {
        self.0 = self.0 ^ other.0;
    }
}

impl Default for MenuItemFlags {
    fn default() -> (f: Self)
        ensures
            f.0 == FLAG_ENABLED,
    {
        Self::enabled()
    }
}

/// After the bits of `other` are set, the flags contain `other` (when it is not empty).
pub proof fn lemma_set_then_contains(flags: u32, other: u32)
    requires
        other != 0,
    ensures
        has_bits(flags | other, other),
{
    assert((flags | other) & other == other) by (bit_vector);
}

/// After the bits of `other` are cleared, the flags share no bit with `other`.
pub proof fn lemma_clear_then_not_contains(flags: u32, other: u32)
    ensures
        !has_bits(flags & !other, other),
{
    assert((flags & !other) & other == 0) by (bit_vector);
}

/// Toggling the same bits twice restores the flags.
pub proof fn lemma_toggle_twice(flags: u32, other: u32)
    ensures
        (flags ^ other) ^ other == flags,
{
    assert((flags ^ other) ^ other == flags) by (bit_vector);
}

/// The identifier of the action that a menu item runs when chosen.
pub type MenuCallback = usize;

/// One entry of the menu.
#[derive(Debug, Clone)]
pub struct MenuItem {
    /// Flag bits.
    pub flags: MenuItemFlags,
    /// Displayed text.
    pub text: String,
    /// Action to run when the item is chosen, if any.
    pub callback: Option<MenuCallback>,
    /// Current slider value.
    pub value: i32,
    /// Maximal slider value.
    pub max_value: i32,
}

/// Flags with the highlight bit set or cleared.
pub open spec fn highlight_bits(flags: u32, on: bool) -> u32 {
    if on { flags | FLAG_HIGHLIGHTED } else { flags & !FLAG_HIGHLIGHTED }
}

/// Flags with the enabled state set: enabled bit and disabled bit exchanged.
pub open spec fn enabled_bits(flags: u32, on: bool) -> u32 {
    if on {
        (flags | FLAG_ENABLED) & !FLAG_DISABLED
    } else {
        (flags & !FLAG_ENABLED) | FLAG_DISABLED
    }
}

impl MenuItem {
    /// The item is enabled: its enabled bit is set and its disabled bit clear.
    pub open spec fn spec_is_enabled(&self) -> bool {
        has_bits(self.flags.0, FLAG_ENABLED) && !has_bits(self.flags.0, FLAG_DISABLED)
    }

    /// The item is a slider.
    pub open spec fn spec_is_slider(&self) -> bool {
        has_bits(self.flags.0, FLAG_SLIDER)
    }

    /// The item is highlighted.
    pub open spec fn spec_is_highlighted(&self) -> bool {
        has_bits(self.flags.0, FLAG_HIGHLIGHTED)
    }

    /// This item with its highlight bit set to `on`.
    pub open spec fn with_highlight(self, on: bool) -> MenuItem {
        MenuItem { flags: MenuItemFlags(highlight_bits(self.flags.0, on)), ..self }
    }

    /// A plain enabled item with the given text.
    pub fn new(text: &str) -> (item: Self)
        ensures
            item.flags.0 == FLAG_ENABLED,
            item.text@ == text@,
            item.callback is None,
            item.value == 0,
            item.max_value == 0,
    {
        MenuItem {
            flags: MenuItemFlags::enabled(),
            text: text.to_owned(),
            callback: None,
            value: 0,
            max_value: 0,
        }
    }

    /// An enabled slider item.
    pub fn slider(text: &str, value: i32, max_value: i32) -> (item: Self)
        ensures
            item.flags.0 == FLAG_ENABLED | FLAG_SLIDER,
            item.flags.0 == 3,
            item.text@ == text@,
            item.callback is None,
            item.value == value,
            item.max_value == max_value,
    {
        assert(FLAG_ENABLED | FLAG_SLIDER == 3u32) by (bit_vector);
        MenuItem {
            flags: MenuItemFlags(MenuItemFlags::enabled().0 | MenuItemFlags::slider().0),
            text: text.to_owned(),
            callback: None,
            value,
            max_value,
        }
    }

    /// An enabled item that runs `callback` when chosen.
    pub fn with_callback(text: &str, callback: MenuCallback) -> (item: Self)
        ensures
            item.flags.0 == FLAG_ENABLED,
            item.text@ == text@,
            item.callback == Some(callback),
            item.value == 0,
            item.max_value == 0,
    {
        MenuItem {
            flags: MenuItemFlags::enabled(),
            text: text.to_owned(),
            callback: Some(callback),
            value: 0,
            max_value: 0,
        }
    }

    /// Whether the item is enabled.
    pub fn is_enabled(&self) -> (b: bool)
        ensures
            b == self.spec_is_enabled(),
    {
        self.flags.contains(MenuItemFlags::enabled()) && !self.flags.contains(
            MenuItemFlags::disabled(),
        )
    }

    /// Whether the item is a slider.
    pub fn is_slider(&self) -> (b: bool)
        ensures
            b == self.spec_is_slider(),
    {
        self.flags.contains(MenuItemFlags::slider())
    }

    /// Whether the item is highlighted.
    pub fn is_highlighted(&self) -> (b: bool)
        ensures
            b == self.spec_is_highlighted(),
    {
        self.flags.contains(MenuItemFlags::highlighted())
    }

    /// Sets or clears the highlight bit.
    pub fn set_highlighted(&mut self, highlighted: bool)
        ensures
            *final(self) == old(self).with_highlight(highlighted),
            final(self).spec_is_highlighted() == highlighted,
            final(self).spec_is_enabled() == old(self).spec_is_enabled(),
            final(self).spec_is_slider() == old(self).spec_is_slider(),
    {
        let ghost f = self.flags.0;
        if highlighted {
            self.flags.set(MenuItemFlags::highlighted());
        } else {
            self.flags.clear(MenuItemFlags::highlighted());
        }
        proof {
            lemma_highlight_bits(f, highlighted);
        }
    }

    /// Enables or disables the item.
    pub fn set_enabled(&mut self, enabled: bool)
        ensures
            *final(self) == (MenuItem {
                flags: MenuItemFlags(enabled_bits(old(self).flags.0, enabled)),
                ..*old(self)
            }),
            final(self).spec_is_enabled() == enabled,
            final(self).spec_is_slider() == old(self).spec_is_slider(),
            final(self).spec_is_highlighted() == old(self).spec_is_highlighted(),
    {
        let ghost f = self.flags.0;
        if enabled {
            self.flags.set(MenuItemFlags::enabled());
            self.flags.clear(MenuItemFlags::disabled());
        } else {
            self.flags.clear(MenuItemFlags::enabled());
            self.flags.set(MenuItemFlags::disabled());
        }
        proof {
            lemma_enabled_bits(f, enabled);
        }
    }

    /// The action to run when the item is chosen.
    pub fn invoke(&self) -> (action: Option<MenuCallback>)
        ensures
            action == self.callback,
    {
        self.callback
    }
}

impl Default for MenuItem {
    fn default() -> (item: Self)
        ensures
            item.flags.0 == FLAG_ENABLED,
            item.text@ == Seq::<char>::empty(),
            item.callback is None,
            item.value == 0,
            item.max_value == 0,
    {
        MenuItem {
            flags: MenuItemFlags::enabled(),
            text: String::new(),
            callback: None,
            value: 0,
            max_value: 0,
        }
    }
}

/// Setting the highlight bit changes only that bit.
proof fn lemma_highlight_bits(f: u32, on: bool)
    ensures
        has_bits(highlight_bits(f, on), FLAG_HIGHLIGHTED) == on,
        has_bits(highlight_bits(f, on), FLAG_ENABLED) == has_bits(f, FLAG_ENABLED),
        has_bits(highlight_bits(f, on), FLAG_DISABLED) == has_bits(f, FLAG_DISABLED),
        has_bits(highlight_bits(f, on), FLAG_SLIDER) == has_bits(f, FLAG_SLIDER),
{
    assert(((f | 8u32) & 8u32 != 0) && ((f & !8u32) & 8u32 == 0)) by (bit_vector);
    assert(((f | 8u32) & 1u32 != 0) == (f & 1u32 != 0)) by (bit_vector);
    assert(((f & !8u32) & 1u32 != 0) == (f & 1u32 != 0)) by (bit_vector);
    assert(((f | 8u32) & 16u32 != 0) == (f & 16u32 != 0)) by (bit_vector);
    assert(((f & !8u32) & 16u32 != 0) == (f & 16u32 != 0)) by (bit_vector);
    assert(((f | 8u32) & 2u32 != 0) == (f & 2u32 != 0)) by (bit_vector);
    assert(((f & !8u32) & 2u32 != 0) == (f & 2u32 != 0)) by (bit_vector);
}

/// Setting the enabled state keeps the slider and highlight bits.
proof fn lemma_enabled_bits(f: u32, on: bool)
    ensures
        (has_bits(enabled_bits(f, on), FLAG_ENABLED) && !has_bits(
            enabled_bits(f, on),
            FLAG_DISABLED,
        )) == on,
        has_bits(enabled_bits(f, on), FLAG_SLIDER) == has_bits(f, FLAG_SLIDER),
        has_bits(enabled_bits(f, on), FLAG_HIGHLIGHTED) == has_bits(f, FLAG_HIGHLIGHTED),
{
    assert((((f | 1u32) & !16u32) & 1u32 != 0) && (((f | 1u32) & !16u32) & 16u32 == 0))
        by (bit_vector);
    assert((((f & !1u32) | 16u32) & 16u32 != 0)) by (bit_vector);
    assert(((((f | 1u32) & !16u32) & 2u32 != 0) == (f & 2u32 != 0)) && ((((f & !1u32) | 16u32)
        & 2u32 != 0) == (f & 2u32 != 0))) by (bit_vector);
    assert(((((f | 1u32) & !16u32) & 8u32 != 0) == (f & 8u32 != 0)) && ((((f & !1u32) | 16u32)
        & 8u32 != 0) == (f & 8u32 != 0))) by (bit_vector);
}

/// The index reached by moving down from `start`, having looked at `k - 1`
/// items below it already: the first enabled item, or `start` again after a
/// full round.
pub open spec fn scan_down(items: Seq<MenuItem>, start: int, k: int) -> int
    decreases items.len() - k,
{
    if k >= items.len() {
        start
    } else {
        let i = if start + k < items.len() { start + k } else { start + k - items.len() };
        if items[i].spec_is_enabled() {
            i
        } else {
            scan_down(items, start, k + 1)
        }
    }
}

/// The index reached by moving up from `start`: the first enabled item above
/// it (wrapping to the bottom), or `start` again after a full round.
pub open spec fn scan_up(items: Seq<MenuItem>, start: int, k: int) -> int
    decreases items.len() - k,
{
    if k >= items.len() {
        start
    } else {
        let i = if k <= start { start - k } else { start + items.len() - k };
        if items[i].spec_is_enabled() {
            i
        } else {
            scan_up(items, start, k + 1)
        }
    }
}

/// The items with the highlight on exactly the item at `selected`.
pub open spec fn highlight_only(items: Seq<MenuItem>, selected: int) -> Seq<MenuItem> {
    Seq::new(items.len(), |i: int| items[i].with_highlight(i == selected))
}


/// The items after the highlight moves from the item at `from` to the item
/// at `to`: the first loses its highlight, then the second gains it; every
/// other item is unchanged.
pub open spec fn highlight_moved(items: Seq<MenuItem>, from: int, to: int) -> Seq<MenuItem> {
    let cleared = items.update(from, items[from].with_highlight(false));
    cleared.update(to, cleared[to].with_highlight(true))
}

/// The in-game menu.
#[derive(Debug)]
pub struct GMenu {
    items: Vec<MenuItem>,
    selected_index: usize,
    visible: bool,
    width: i32,
    pos_x: i32,
    pos_y: i32,
    dragging_slider: Option<usize>,
}

impl GMenu {
    /// The menu items.
    pub closed spec fn spec_items(&self) -> Seq<MenuItem> {
        self.items@
    }

    /// The selected index.
    pub closed spec fn spec_selected(&self) -> int {
        self.selected_index as int
    }

    /// Whether the menu is shown.
    pub closed spec fn spec_visible(&self) -> bool {
        self.visible
    }

    /// The menu width.
    pub closed spec fn spec_width(&self) -> i32 {
        self.width
    }

    /// The menu position.
    pub closed spec fn spec_position(&self) -> (i32, i32) {
        (self.pos_x, self.pos_y)
    }

    /// The slider being dragged, if any.
    pub closed spec fn spec_dragging(&self) -> Option<usize> {
        self.dragging_slider
    }

    /// The selection points at an item, or at 0 when there is none.
    pub open spec fn wf(&self) -> bool {
        if self.spec_items().len() == 0 {
            self.spec_selected() == 0
        } else {
            0 <= self.spec_selected() < self.spec_items().len()
        }
    }

    /// Everything but the items and the selection is as in `other`.
    pub open spec fn same_frame(&self, other: &GMenu) -> bool {
        &&& self.spec_visible() == other.spec_visible()
        &&& self.spec_width() == other.spec_width()
        &&& self.spec_position() == other.spec_position()
        &&& self.spec_dragging() == other.spec_dragging()
    }

    /// An empty, hidden menu at the default position.
    pub fn new() -> (m: Self)
        ensures
            m.wf(),
            m.spec_items().len() == 0,
            m.spec_selected() == 0,
            !m.spec_visible(),
            m.spec_width() == SLIDER_ITEM_WIDTH,
            m.spec_position() == (0i32, GMENU_TOP),
            m.spec_dragging() is None,
    {
        GMenu {
            items: Vec::new(),
            selected_index: 0,
            visible: false,
            width: SLIDER_ITEM_WIDTH,
            pos_x: 0,
            pos_y: GMENU_TOP,
            dragging_slider: None,
        }
    }

    /// Appends an item.
    pub fn add_item(&mut self, item: MenuItem)
        requires
            old(self).wf(),
        ensures
            final(self).wf(),
            final(self).spec_items() == old(self).spec_items().push(item),
            final(self).spec_selected() == old(self).spec_selected(),
            final(self).same_frame(old(self)),
    {
        self.items.push(item);
    }

    /// Removes every item and resets the selection.
    pub fn clear(&mut self)
        ensures
            final(self).wf(),
            final(self).spec_items().len() == 0,
            final(self).spec_selected() == 0,
            final(self).spec_dragging() is None,
            final(self).spec_visible() == old(self).spec_visible(),
            final(self).spec_width() == old(self).spec_width(),
            final(self).spec_position() == old(self).spec_position(),
    {
        self.items.clear();
        self.selected_index = 0;
        self.dragging_slider = None;
    }

    /// The number of items.
    pub fn item_count(&self) -> (n: usize)
        ensures
            n == self.spec_items().len(),
    {
        self.items.len()
    }

    /// The selected item, if the selection points at one.
    pub fn selected_item(&self) -> (r: Option<&MenuItem>)
        ensures
            self.spec_selected() < self.spec_items().len() ==> r == Some(
                &self.spec_items()[self.spec_selected()],
            ),
            self.spec_selected() >= self.spec_items().len() ==> r is None,
    {
        if self.selected_index < self.items.len() {
            Some(&self.items[self.selected_index])
        } else {
            None
        }
    }

    /// Mutable access to the selected item, if the selection points at one.
    pub fn selected_item_mut(&mut self) -> (r: Option<&mut MenuItem>)
        ensures
            old(self).spec_selected() < old(self).spec_items().len() ==> (r matches Some(m)
                && *m == old(self).spec_items()[old(self).spec_selected()]
                && final(self).spec_items() == old(self).spec_items().update(
                old(self).spec_selected(),
                *final(m),
            )),
            old(self).spec_selected() >= old(self).spec_items().len() ==> r is None
                && final(self).spec_items() == old(self).spec_items(),
            final(self).spec_selected() == old(self).spec_selected(),
            final(self).same_frame(old(self)),
    {
        if self.selected_index < self.items.len() {
            Some(&mut self.items[self.selected_index])
        } else {
            None
        }
    }

    /// The selected index.
    pub fn selected_index(&self) -> (i: usize)
        ensures
            i == self.spec_selected(),
    {
        self.selected_index
    }

    /// Selects the item at `index`, moving the highlight to it; out of range
    /// indices are ignored.
    pub fn set_selected_index(&mut self, index: usize)
        requires
            old(self).wf(),
        ensures
            final(self).wf(),
            final(self).same_frame(old(self)),
            index < old(self).spec_items().len() ==> {
                &&& final(self).spec_selected() == index
                &&& final(self).spec_items() == old(self).spec_items().update(
                    old(self).spec_selected(),
                    old(self).spec_items()[old(self).spec_selected()].with_highlight(false),
                ).update(
                    index as int,
                    old(self).spec_items().update(
                        old(self).spec_selected(),
                        old(self).spec_items()[old(self).spec_selected()].with_highlight(false),
                    )[index as int].with_highlight(true),
                )
            },
            index >= old(self).spec_items().len() ==> final(self).spec_items() == old(self).spec_items() && final(self).spec_selected() == old(self).spec_selected(),
    {
        if index < self.items.len() {
            let old_index = self.selected_index;
            self.items[old_index].set_highlighted(false);
            self.selected_index = index;
            self.items[index].set_highlighted(true);
        }
    }

    /// Moves the selection up to the previous enabled item, wrapping around,
    /// and highlights only the selected item.
    pub fn move_up(&mut self)
        requires
            old(self).wf(),
        ensures
            final(self).wf(),
            final(self).same_frame(old(self)),
            old(self).spec_items().len() == 0 ==> *final(self) == *old(self),
            old(self).spec_items().len() > 0 ==> {
                &&& final(self).spec_selected() == scan_up(
                    old(self).spec_items(),
                    old(self).spec_selected(),
                    1,
                )
                &&& final(self).spec_items() == highlight_only(
                    old(self).spec_items(),
                    final(self).spec_selected(),
                )
            },
    {
        if self.items.len() == 0 {
            return;
        }
        let n = self.items.len();
        let start = self.selected_index;
        let ghost items = self.items@;
        let mut k: usize = 0;
        let mut idx = start;
        proof {
            lemma_scan_up_bounded(items, start as int, 1);
        }
        loop
            invariant_except_break
                0 <= k < n,
                idx == (if k <= start { start - k } else { start + n - k }),
                scan_up(items, start as int, k + 1) == scan_up(items, start as int, 1),
                0 <= scan_up(items, start as int, 1) < n,
            invariant
                self.items@ == items,
                n == items.len(),
                0 <= start < n,
                0 <= scan_up(items, start as int, 1) < n,
            ensures
                idx == scan_up(items, start as int, 1),
            decreases n - k,
        {
            idx = if idx == 0 { n - 1 } else { idx - 1 };
            k = k + 1;
            if self.items[idx].is_enabled() || idx == start {
                break;
            }
        }
        self.selected_index = idx;
        self.update_highlight();
    }

    /// Moves the selection down to the next enabled item, wrapping around,
    /// and highlights only the selected item.
    pub fn move_down(&mut self)
        requires
            old(self).wf(),
        ensures
            final(self).wf(),
            final(self).same_frame(old(self)),
            old(self).spec_items().len() == 0 ==> *final(self) == *old(self),
            old(self).spec_items().len() > 0 ==> {
                &&& final(self).spec_selected() == scan_down(
                    old(self).spec_items(),
                    old(self).spec_selected(),
                    1,
                )
                &&& final(self).spec_items() == highlight_only(
                    old(self).spec_items(),
                    final(self).spec_selected(),
                )
            },
    {
        if self.items.len() == 0 {
            return;
        }
        let n = self.items.len();
        let start = self.selected_index;
        let ghost items = self.items@;
        let mut k: usize = 0;
        let mut idx = start;
        proof {
            lemma_scan_down_bounded(items, start as int, 1);
        }
        loop
            invariant_except_break
                0 <= k < n,
                idx == (if start + k < n { start + k } else { start + k - n }),
                scan_down(items, start as int, k + 1) == scan_down(items, start as int, 1),
                0 <= scan_down(items, start as int, 1) < n,
            invariant
                self.items@ == items,
                n == items.len(),
                0 <= start < n,
                0 <= scan_down(items, start as int, 1) < n,
            ensures
                idx == scan_down(items, start as int, 1),
            decreases n - k,
        {
            idx = if idx + 1 == n { 0 } else { idx + 1 };
            k = k + 1;
            if self.items[idx].is_enabled() || idx == start {
                break;
            }
        }
        self.selected_index = idx;
        self.update_highlight();
    }

    /// Highlights exactly the selected item.
    fn update_highlight(&mut self)
        ensures
            final(self).spec_items() == highlight_only(
                old(self).spec_items(),
                old(self).spec_selected(),
            ),
            final(self).spec_selected() == old(self).spec_selected(),
            final(self).same_frame(old(self)),
    {
        let n = self.items.len();
        let ghost items = self.items@;
        let ghost before = *self;
        let mut i: usize = 0;
        while i < n
            invariant
                n == items.len(),
                self.selected_index == before.selected_index,
                self.visible == before.visible,
                self.width == before.width,
                self.pos_x == before.pos_x,
                self.pos_y == before.pos_y,
                self.dragging_slider == before.dragging_slider,
                self.items@.len() == n,
                0 <= i <= n,
                forall|j: int| 0 <= j < i ==> self.items@[j] == items[j].with_highlight(
                    j == self.selected_index,
                ),
                forall|j: int| i <= j < n ==> self.items@[j] == items[j],
            decreases n - i,
        {
            let on = i == self.selected_index;
            self.items[i].set_highlighted(on);
            i = i + 1;
        }
        assert(self.items@ =~= highlight_only(items, self.selected_index as int));
    }

    /// Chooses the selected item: the action to run, when the item is
    /// enabled, not a slider and has one.
    pub fn select_current(&mut self) -> (action: Option<MenuCallback>)
        ensures
            *final(self) == *old(self),
            action == (if old(self).spec_selected() < old(self).spec_items().len()
                && old(self).spec_items()[old(self).spec_selected()].spec_is_enabled()
                && !old(self).spec_items()[old(self).spec_selected()].spec_is_slider() {
                old(self).spec_items()[old(self).spec_selected()].callback
            } else {
                None
            }),
    {
        if self.selected_index < self.items.len() {
            let item = &self.items[self.selected_index];
            if item.is_enabled() && !item.is_slider() {
                return item.invoke();
            }
        }
        None
    }

    /// Moves the selected slider by `delta`, limited to `[0, max_value]`.
    pub fn adjust_slider(&mut self, delta: i32)
        requires
            old(self).spec_selected() < old(self).spec_items().len()
                && old(self).spec_items()[old(self).spec_selected()].spec_is_slider() ==> {
                let it = old(self).spec_items()[old(self).spec_selected()];
                &&& it.max_value >= 0
                &&& i32::MIN <= it.value + delta <= i32::MAX
            },
        ensures
            final(self).spec_selected() == old(self).spec_selected(),
            final(self).same_frame(old(self)),
            old(self).spec_selected() < old(self).spec_items().len()
                && old(self).spec_items()[old(self).spec_selected()].spec_is_slider() ==> {
                let it = old(self).spec_items()[old(self).spec_selected()];
                final(self).spec_items() == old(self).spec_items().update(
                    old(self).spec_selected(),
                    MenuItem {
                        value: clamp_int(it.value + delta, 0, it.max_value as int) as i32,
                        ..it
                    },
                )
            },
            !(old(self).spec_selected() < old(self).spec_items().len()
                && old(self).spec_items()[old(self).spec_selected()].spec_is_slider())
                ==> final(self).spec_items() == old(self).spec_items(),
    {
        if self.selected_index < self.items.len() {
            let i = self.selected_index;
            if self.items[i].is_slider() {
                let item = &mut self.items[i];
                let new_value = clamp_i32(item.value + delta, 0, item.max_value);
                item.value = new_value;
            }
        }
    }

    /// Moves the selected slider one step left.
    pub fn slider_left(&mut self)
        requires
            old(self).spec_selected() < old(self).spec_items().len()
                && old(self).spec_items()[old(self).spec_selected()].spec_is_slider() ==> {
                let it = old(self).spec_items()[old(self).spec_selected()];
                &&& it.max_value >= 0
                &&& i32::MIN <= it.value - 1
            },
        ensures
            final(self).spec_selected() == old(self).spec_selected(),
            final(self).same_frame(old(self)),
            old(self).spec_selected() < old(self).spec_items().len()
                && old(self).spec_items()[old(self).spec_selected()].spec_is_slider() ==> {
                let it = old(self).spec_items()[old(self).spec_selected()];
                final(self).spec_items() == old(self).spec_items().update(
                    old(self).spec_selected(),
                    MenuItem { value: clamp_int(it.value - 1, 0, it.max_value as int) as i32, ..it },
                )
            },
            !(old(self).spec_selected() < old(self).spec_items().len()
                && old(self).spec_items()[old(self).spec_selected()].spec_is_slider())
                ==> final(self).spec_items() == old(self).spec_items(),
    {
        self.adjust_slider(-1);
    }

    /// Moves the selected slider one step right.
    pub fn slider_right(&mut self)
        requires
            old(self).spec_selected() < old(self).spec_items().len()
                && old(self).spec_items()[old(self).spec_selected()].spec_is_slider() ==> {
                let it = old(self).spec_items()[old(self).spec_selected()];
                &&& it.max_value >= 0
                &&& it.value + 1 <= i32::MAX
            },
        ensures
            final(self).spec_selected() == old(self).spec_selected(),
            final(self).same_frame(old(self)),
            old(self).spec_selected() < old(self).spec_items().len()
                && old(self).spec_items()[old(self).spec_selected()].spec_is_slider() ==> {
                let it = old(self).spec_items()[old(self).spec_selected()];
                final(self).spec_items() == old(self).spec_items().update(
                    old(self).spec_selected(),
                    MenuItem { value: clamp_int(it.value + 1, 0, it.max_value as int) as i32, ..it },
                )
            },
            !(old(self).spec_selected() < old(self).spec_items().len()
                && old(self).spec_items()[old(self).spec_selected()].spec_is_slider())
                ==> final(self).spec_items() == old(self).spec_items(),
    {
        self.adjust_slider(1);
    }

    /// Shows the menu and highlights exactly the selected item.
    pub fn show(&mut self)
        ensures
            final(self).spec_visible(),
            final(self).spec_items() == highlight_only(
                old(self).spec_items(),
                old(self).spec_selected(),
            ),
            final(self).spec_selected() == old(self).spec_selected(),
            final(self).spec_width() == old(self).spec_width(),
            final(self).spec_position() == old(self).spec_position(),
            final(self).spec_dragging() == old(self).spec_dragging(),
    {
        self.visible = true;
        self.update_highlight();
    }

    /// Hides the menu and stops any slider drag.
    pub fn hide_menu(&mut self)
        ensures
            !final(self).spec_visible(),
            final(self).spec_dragging() is None,
            final(self).spec_items() == old(self).spec_items(),
            final(self).spec_selected() == old(self).spec_selected(),
            final(self).spec_width() == old(self).spec_width(),
            final(self).spec_position() == old(self).spec_position(),
    {
        self.visible = false;
        self.dragging_slider = None;
    }

    /// Shows a hidden menu, hides a shown one.
    pub fn toggle(&mut self)
        ensures
            final(self).spec_visible() == !old(self).spec_visible(),
            final(self).spec_selected() == old(self).spec_selected(),
            final(self).spec_width() == old(self).spec_width(),
            final(self).spec_position() == old(self).spec_position(),
            old(self).spec_visible() ==> final(self).spec_items() == old(self).spec_items()
                && final(self).spec_dragging() is None,
            !old(self).spec_visible() ==> final(self).spec_items() == highlight_only(
                old(self).spec_items(),
                old(self).spec_selected(),
            ) && final(self).spec_dragging() == old(self).spec_dragging(),
    {
        if self.visible {
            self.hide_menu();
        } else {
            self.show();
        }
    }

    /// Whether the menu is shown.
    pub fn is_visible(&self) -> (b: bool)
        ensures
            b == self.spec_visible(),
    {
        self.visible
    }

    /// The menu width.
    pub fn width(&self) -> (w: i32)
        ensures
            w == self.spec_width(),
    {
        self.width
    }

    /// Sets the menu width.
    pub fn set_width(&mut self, width: i32)
        ensures
            final(self).spec_width() == width,
            final(self).spec_items() == old(self).spec_items(),
            final(self).spec_selected() == old(self).spec_selected(),
            final(self).spec_visible() == old(self).spec_visible(),
            final(self).spec_position() == old(self).spec_position(),
            final(self).spec_dragging() == old(self).spec_dragging(),
    {
        self.width = width;
    }

    /// The menu position.
    pub fn position(&self) -> (p: (i32, i32))
        ensures
            p == self.spec_position(),
    {
        (self.pos_x, self.pos_y)
    }

    /// Sets the menu position.
    pub fn set_position(&mut self, x: i32, y: i32)
        ensures
            final(self).spec_position() == (x, y),
            final(self).spec_items() == old(self).spec_items(),
            final(self).spec_selected() == old(self).spec_selected(),
            final(self).spec_visible() == old(self).spec_visible(),
            final(self).spec_width() == old(self).spec_width(),
            final(self).spec_dragging() == old(self).spec_dragging(),
    {
        self.pos_x = x;
        self.pos_y = y;
    }

    /// The y coordinate of the item at `index`.
    pub fn item_y(&self, index: usize) -> (y: i32)
        requires
            index * GMENU_ITEM_HEIGHT <= i32::MAX,
            i32::MIN <= self.spec_position().1 + index * GMENU_ITEM_HEIGHT <= i32::MAX,
        ensures
            y == self.spec_position().1 + index * GMENU_ITEM_HEIGHT,
    {
        self.pos_y + (index as i32) * GMENU_ITEM_HEIGHT
    }

    /// Handles a click at `(x, y)`: selects the item under the pointer,
    /// starts dragging it when it is a slider and chooses it otherwise.
    /// Returns whether the click hit an item, and the action to run.
    pub fn handle_click(&mut self, x: i32, y: i32) -> (r: (bool, Option<MenuCallback>))
        requires
            old(self).wf(),
            old(self).spec_visible() && old(self).spec_items().len() > 0 ==> i32::MIN <= y
                - old(self).spec_position().1 <= i32::MAX,
        ensures
            final(self).wf(),
            ({
                let rel = y - old(self).spec_position().1;
                let index = rel / GMENU_ITEM_HEIGHT as int;
                if !old(self).spec_visible() || old(self).spec_items().len() == 0 || rel < 0
                    || index >= old(self).spec_items().len() {
                    r == (false, None::<MenuCallback>) && *final(self) == *old(self)
                } else {
                    &&& r.0
                    &&& final(self).spec_selected() == index
                    &&& final(self).spec_items() == highlight_moved(
                        old(self).spec_items(),
                        old(self).spec_selected(),
                        index,
                    )
                    &&& final(self).spec_items().len() == old(self).spec_items().len()
                    &&& final(self).spec_items()[index].text == old(self).spec_items()[index].text
                    &&& final(self).spec_visible() == old(self).spec_visible()
                    &&& final(self).spec_width() == old(self).spec_width()
                    &&& final(self).spec_position() == old(self).spec_position()
                    &&& if old(self).spec_items()[index].spec_is_slider() {
                        &&& final(self).spec_dragging() == Some(index as usize)
                        &&& r.1 is None
                    } else {
                        &&& final(self).spec_dragging() == old(self).spec_dragging()
                        &&& r.1 == (if old(self).spec_items()[index].spec_is_enabled() {
                            old(self).spec_items()[index].callback
                        } else {
                            None
                        })
                    }
                }
            }),
    {
        if !self.visible || self.items.len() == 0 {
            return (false, None);
        }
        let relative_y = y - self.pos_y;
        if relative_y < 0 {
            return (false, None);
        }
        let index = (relative_y / GMENU_ITEM_HEIGHT) as usize;
        if index < self.items.len() {
            let ghost before = self.items@;
            let ghost sel = self.selected_index as int;
            self.set_selected_index(index);
            proof {
                let x = before[index as int];
                if index as int == sel {
                    lemma_with_highlight_keeps(x, false);
                    lemma_with_highlight_keeps(x.with_highlight(false), true);
                } else {
                    lemma_with_highlight_keeps(x, true);
                }
            }
            if self.items[index].is_slider() {
                self.dragging_slider = Some(index);
                return (true, None);
            } else {
                let action = self.select_current();
                return (true, action);
            }
        }
        (false, None)
    }

    /// Stops any slider drag.
    pub fn handle_mouse_up(&mut self)
        ensures
            final(self).spec_dragging() is None,
            final(self).spec_items() == old(self).spec_items(),
            final(self).spec_selected() == old(self).spec_selected(),
            final(self).spec_visible() == old(self).spec_visible(),
            final(self).spec_width() == old(self).spec_width(),
            final(self).spec_position() == old(self).spec_position(),
    {
        self.dragging_slider = None;
    }

    /// All items.
    pub fn items(&self) -> (s: &[MenuItem])
        ensures
            s@ == self.spec_items(),
    {
        self.items.as_slice()
    }

    /// Mutable access to all items.
    pub fn items_mut(&mut self) -> (s: &mut [MenuItem])
        ensures
            s@ == old(self).spec_items(),
            final(self).spec_items() == final(s)@,
            final(self).spec_selected() == old(self).spec_selected(),
            final(self).same_frame(old(self)),
    {
        self.items.as_mut_slice()
    }

    /// The item at `index`, if any.
    pub fn item(&self, index: usize) -> (r: Option<&MenuItem>)
        ensures
            index < self.spec_items().len() ==> r == Some(&self.spec_items()[index as int]),
            index >= self.spec_items().len() ==> r is None,
    {
        if index < self.items.len() {
            Some(&self.items[index])
        } else {
            None
        }
    }

    /// Mutable access to the item at `index`, if any.
    pub fn item_mut(&mut self, index: usize) -> (r: Option<&mut MenuItem>)
        ensures
            index < old(self).spec_items().len() ==> (r matches Some(m) && *m == old(self).spec_items()[index as int] && final(self).spec_items() == old(self).spec_items().update(index as int, *final(m))),
            index >= old(self).spec_items().len() ==> r is None && final(self).spec_items()
                == old(self).spec_items(),
            final(self).spec_selected() == old(self).spec_selected(),
            final(self).same_frame(old(self)),
    {
        if index < self.items.len() {
            Some(&mut self.items[index])
        } else {
            None
        }
    }
}

/// Changing the highlight keeps the text, the action and the other flags.
proof fn lemma_with_highlight_keeps(item: MenuItem, on: bool)
    ensures
        item.with_highlight(on).text == item.text,
        item.with_highlight(on).callback == item.callback,
        item.with_highlight(on).spec_is_slider() == item.spec_is_slider(),
        item.with_highlight(on).spec_is_enabled() == item.spec_is_enabled(),
        item.with_highlight(on).spec_is_highlighted() == on,
{
    lemma_highlight_bits(item.flags.0, on);
}

/// When every item is enabled, moving down and then up returns to the
/// item selected first.
pub proof fn lemma_move_down_then_up(items: Seq<MenuItem>, start: int)
    requires
        0 <= start < items.len(),
        forall|i: int| 0 <= i < items.len() ==> (#[trigger] items[i]).spec_is_enabled(),
    ensures
        ({
            let down = scan_down(items, start, 1);
            scan_up(highlight_only(items, down), down, 1) == start
        }),
{
    let n = items.len();
    let down = scan_down(items, start, 1);
    let moved = highlight_only(items, down);
    assert forall|i: int| 0 <= i < n implies (#[trigger] moved[i]).spec_is_enabled() by {
        lemma_with_highlight_keeps(items[i], i == down);
    }
    if n > 1 {
        assert(down == if start + 1 < n { start + 1 } else { start + 1 - n });
        let back = if 1 <= down { down - 1 } else { down + n - 1 };
        assert(moved[back].spec_is_enabled());
        assert(scan_up(moved, down, 1) == back);
    }
}

/// When every item is enabled, moving up and then down returns to the
/// item selected first.
pub proof fn lemma_move_up_then_down(items: Seq<MenuItem>, start: int)
    requires
        0 <= start < items.len(),
        forall|i: int| 0 <= i < items.len() ==> (#[trigger] items[i]).spec_is_enabled(),
    ensures
        ({
            let up = scan_up(items, start, 1);
            scan_down(highlight_only(items, up), up, 1) == start
        }),
{
    let n = items.len();
    let up = scan_up(items, start, 1);
    let moved = highlight_only(items, up);
    assert forall|i: int| 0 <= i < n implies (#[trigger] moved[i]).spec_is_enabled() by {
        lemma_with_highlight_keeps(items[i], i == up);
    }
    if n > 1 {
        assert(up == if 1 <= start { start - 1 } else { start + n - 1 });
        let back = if up + 1 < n { up + 1 } else { up + 1 - n };
        assert(moved[back].spec_is_enabled());
        assert(scan_down(moved, up, 1) == back);
    }
}

/// `scan_down` from step `k` stays inside the list.
proof fn lemma_scan_down_bounded(items: Seq<MenuItem>, start: int, k: int)
    requires
        0 <= start < items.len(),
        0 <= k,
    ensures
        0 <= scan_down(items, start, k) < items.len(),
    decreases items.len() - k,
{
    if k < items.len() {
        lemma_scan_down_bounded(items, start, k + 1);
    }
}

/// `scan_up` from step `k` stays inside the list.
proof fn lemma_scan_up_bounded(items: Seq<MenuItem>, start: int, k: int)
    requires
        0 <= start < items.len(),
        0 <= k,
    ensures
        0 <= scan_up(items, start, k) < items.len(),
    decreases items.len() - k,
{
    if k < items.len() {
        lemma_scan_up_bounded(items, start, k + 1);
    }
}

impl Default for GMenu {
    fn default() -> (m: Self)
        ensures
            m.wf(),
            m.spec_items().len() == 0,
            m.spec_selected() == 0,
            !m.spec_visible(),
            m.spec_width() == SLIDER_ITEM_WIDTH,
            m.spec_position() == (0i32, GMENU_TOP),
            m.spec_dragging() is None,
    {
        Self::new()
    }
}

/// Predefined menu kinds.
#[derive(Debug, Clone, Copy, PartialEq, Eq, Structural)]
pub enum MenuType {
    /// Main menu.
    Main,
    /// Options menu.
    Options,
    /// Audio options.
    Audio,
    /// Graphics options.
    Graphics,
    /// Gameplay options.
    Gameplay,
    /// Confirmation dialog.
    Confirm,
}

/// The options menu: music, sound and gamma sliders at 5 of 10, and a back item.
pub fn create_options_menu() -> (m: GMenu)
    ensures
        m.wf(),
        m.spec_items().len() == 4,
        forall|i: int|
            0 <= i < 3 ==> {
                &&& (#[trigger] m.spec_items()[i]).flags.0 == 3
                &&& m.spec_items()[i].value == 5
                &&& m.spec_items()[i].max_value == SLIDER_STEPS as i32
            },
        m.spec_items()[3].flags.0 == FLAG_ENABLED,
        m.spec_items()[3].value == 0,
        m.spec_items()[3].max_value == 0,
        m.spec_selected() == 0,
        !m.spec_visible(),
        m.spec_position() == (0i32, GMENU_TOP),
{
    let mut menu = GMenu::new();
    menu.add_item(MenuItem::slider("音乐音量", 5, SLIDER_STEPS as i32));
    menu.add_item(MenuItem::slider("音效音量", 5, SLIDER_STEPS as i32));
    menu.add_item(MenuItem::slider("伽马值", 5, SLIDER_STEPS as i32));
    menu.add_item(MenuItem::new("返回"));
    menu
}

/// The pixel position of a slider: its value scaled to `slider_width`.
pub fn slider_get_position(item: &MenuItem, slider_width: i32) -> (p: i32)
    requires
        i32::MIN <= item.value * slider_width <= i32::MAX,
        !(item.value * slider_width == i32::MIN && item.max_value == -1),
    ensures
        p == (if item.max_value == 0 {
            0
        } else {
            trunc_div(item.value * slider_width, item.max_value as int)
        }),
{
    if item.max_value == 0 {
        return 0;
    }
    div_i32(item.value * slider_width, item.max_value)
}

/// Sets a slider from a pixel position, limited to `[0, max_value]`.
pub fn slider_set_from_position(item: &mut MenuItem, position: i32, slider_width: i32)
    requires
        slider_width != 0 ==> {
            &&& old(item).max_value >= 0
            &&& i32::MIN <= position * old(item).max_value <= i32::MAX
            &&& !(position * old(item).max_value == i32::MIN && slider_width == -1)
        },
    ensures
        slider_width == 0 ==> *final(item) == *old(item),
        slider_width != 0 ==> *final(item) == (MenuItem {
            value: clamp_int(
                trunc_div(position * old(item).max_value, slider_width as int),
                0,
                old(item).max_value as int,
            ) as i32,
            ..*old(item)
        }),
{
    if slider_width == 0 {
        return;
    }
    let new_value = div_i32(position * item.max_value, slider_width);
    item.value = clamp_i32(new_value, 0, item.max_value);
}

} // verus!
