//! The in-game menu: options, save, load and quit, with volume, brightness and
//! speed sliders.

pub mod menu_flags;

use vstd::prelude::*;
use crate::numeric::{trunc_div, clamp_int, div_i32, clamp_i32};

verus! {

/// Lowest volume.
pub const VOLUME_MIN: i32 = 0;

/// Highest volume.
pub const VOLUME_MAX: i32 = 100;

/// Number of volume steps.
pub const VOLUME_STEPS: i32 = 21;

/// Kinds of menu item.
#[derive(Debug, Clone, Copy, PartialEq, Eq, Structural)]
pub enum MenuItemType {
    /// A button.
    Button,
    /// A slider.
    Slider,
    /// A separator line.
    Separator,
}

/// One menu entry.
#[derive(Debug, Clone)]
pub struct MenuItem {
    /// Flag bits (see `menu_flags`).
    pub flags: u32,
    /// Displayed text.
    pub text: Option<String>,
    /// The kind of item.
    pub item_type: MenuItemType,
    /// Current slider value.
    pub slider_value: i32,
    /// Lowest slider value.
    pub slider_min: i32,
    /// Highest slider value.
    pub slider_max: i32,
    /// Number of slider steps.
    pub slider_steps: i32,
}

impl MenuItem {
    /// The enabled bit is set.
    pub open spec fn spec_is_enabled(&self) -> bool {
        self.flags & menu_flags::ENABLED != 0
    }

    /// The slider bit is set.
    pub open spec fn spec_is_slider(&self) -> bool {
        self.flags & menu_flags::SLIDER != 0
    }

    /// The item can be selected: it is enabled and no separator.
    pub open spec fn selectable(&self) -> bool {
        self.item_type != MenuItemType::Separator && self.spec_is_enabled()
    }

    /// An enabled button labelled `text`, with the default slider settings.
    pub fn new(text: &str) -> (item: Self)
        ensures
            item.flags == menu_flags::ENABLED,
            item.text matches Some(t) && t@ == text@,
            item.item_type == MenuItemType::Button,
            item.slider_value == 0,
            item.slider_min == 0,
            item.slider_max == 100,
            item.slider_steps == 10,
    {
        MenuItem {
            flags: menu_flags::ENABLED,
            text: Some(text.to_owned()),
            item_type: MenuItemType::Button,
            slider_value: 0,
            slider_min: 0,
            slider_max: 100,
            slider_steps: 10,
        }
    }

    /// An enabled slider over `[min, max]` at `value`, with a fifth of the
    /// range as step count.
    pub fn slider(text: &str, min: i32, max: i32, value: i32) -> (item: Self)
        requires
            i32::MIN <= max - min <= i32::MAX,
        ensures
            item.flags == menu_flags::ENABLED | menu_flags::SLIDER,
            item.flags == 3,
            item.text matches Some(t) && t@ == text@,
            item.item_type == MenuItemType::Slider,
            item.slider_value == value,
            item.slider_min == min,
            item.slider_max == max,
            item.slider_steps == trunc_div(max - min, 5),
    {
        assert(menu_flags::ENABLED | menu_flags::SLIDER == 3u32) by (bit_vector);
        MenuItem {
            flags: menu_flags::ENABLED | menu_flags::SLIDER,
            text: Some(text.to_owned()),
            item_type: MenuItemType::Slider,
            slider_value: value,
            slider_min: min,
            slider_max: max,
            slider_steps: div_i32(max - min, 5),
        }
    }

    /// A separator: no flags, no text.
    pub fn separator() -> (item: Self)
        ensures
            item.flags == 0,
            item.text is None,
            item.item_type == MenuItemType::Separator,
            item.slider_value == 0,
            item.slider_min == 0,
            item.slider_max == 100,
            item.slider_steps == 10,
    {
        MenuItem {
            flags: 0,
            text: None,
            item_type: MenuItemType::Separator,
            slider_value: 0,
            slider_min: 0,
            slider_max: 100,
            slider_steps: 10,
        }
    }

    /// Whether the enabled bit is set.
    pub fn is_enabled(&self) -> (b: bool)
        ensures
            b == self.spec_is_enabled(),
    {
        self.flags & menu_flags::ENABLED != 0
    }

    /// Sets or clears the enabled bit.
    pub fn set_enabled(&mut self, enabled: bool)
        ensures
            *final(self) == (MenuItem {
                flags: if enabled {
                    old(self).flags | menu_flags::ENABLED
                } else {
                    old(self).flags & !menu_flags::ENABLED
                },
                ..*old(self)
            }),
            final(self).spec_is_enabled() == enabled,
            final(self).spec_is_slider() == old(self).spec_is_slider(),
    {
        let ghost f = self.flags;
        if enabled {
            self.flags = self.flags | menu_flags::ENABLED;
        } else {
            self.flags = self.flags & !menu_flags::ENABLED;
        }
        assert(((f | 1u32) & 1u32 != 0) && ((f & !1u32) & 1u32 == 0)) by (bit_vector);
        assert((((f | 1u32) & 2u32 != 0) == (f & 2u32 != 0)) && (((f & !1u32) & 2u32 != 0) == (f
            & 2u32 != 0))) by (bit_vector);
    }

    /// Whether the slider bit is set.
    pub fn is_slider(&self) -> (b: bool)
        ensures
            b == self.spec_is_slider(),
    {
        self.flags & menu_flags::SLIDER != 0
    }

    /// Sets the given flag bits.
    pub fn add_flags(&mut self, flags: u32)
        ensures
            *final(self) == (MenuItem { flags: old(self).flags | flags, ..*old(self) }),
    {
        self.flags = self.flags | flags;
    }

    /// Clears the given flag bits.
    pub fn remove_flags(&mut self, flags: u32)
        ensures
            *final(self) == (MenuItem { flags: old(self).flags & !flags, ..*old(self) }),
    {
        self.flags = self.flags & !flags;
    }

    /// Sets the slider value, limited to `[slider_min, slider_max]`.
    pub fn set_slider_value(&mut self, value: i32)
        requires
            old(self).slider_min <= old(self).slider_max,
        ensures
            *final(self) == (MenuItem {
                slider_value: clamp_int(
                    value as int,
                    old(self).slider_min as int,
                    old(self).slider_max as int,
                ) as i32,
                ..*old(self)
            }),
    {
        self.slider_value = clamp_i32(value, self.slider_min, self.slider_max);
    }
}

impl Default for MenuItem {
    fn default() -> (item: Self)
        ensures
            item.flags == menu_flags::ENABLED,
            item.text is None,
            item.item_type == MenuItemType::Button,
            item.slider_value == 0,
            item.slider_min == 0,
            item.slider_max == 100,
            item.slider_steps == 10,
    {
        MenuItem {
            flags: menu_flags::ENABLED,
            text: None,
            item_type: MenuItemType::Button,
            slider_value: 0,
            slider_min: 0,
            slider_max: 100,
            slider_steps: 10,
        }
    }
}

/// Which page of the menu is open.
#[derive(Debug, Clone, Copy, PartialEq, Eq, Structural)]
pub enum GameMenuState {
    /// Closed.
    Closed,
    /// The main page.
    Main,
    /// The options page.
    Options,
}

impl Default for GameMenuState {
    fn default() -> (s: Self)
        ensures
            s == GameMenuState::Closed,
    {
        GameMenuState::Closed
    }
}

/// `item` is the enabled button labelled `name`.
pub open spec fn is_button(item: MenuItem, name: Seq<char>) -> bool {
    &&& item.flags == menu_flags::ENABLED
    &&& item.text matches Some(t) && t@ == name
    &&& item.item_type == MenuItemType::Button
}

/// `item` is the slider labelled `name` over `[min, max]`, at `value`
/// limited to that range, with flags `flags`.
pub open spec fn is_slider_over(
    item: MenuItem,
    name: Seq<char>,
    min: int,
    max: int,
    value: int,
    flags: u32,
) -> bool {
    &&& item.flags == flags
    &&& item.text matches Some(t) && t@ == name
    &&& item.item_type == MenuItemType::Slider
    &&& item.slider_min == min
    &&& item.slider_max == max
    &&& item.slider_value == value
    &&& item.slider_steps == trunc_div(max - min, 5)
}

/// The position `t` steps after `i` in a ring of `n` places.
pub open spec fn ring_fwd(i: int, t: int, n: int) -> int {
    if i + t < n { i + t } else { i + t - n }
}

/// The position `t` steps before `i` in a ring of `n` places.
pub open spec fn ring_bwd(i: int, t: int, n: int) -> int {
    if t <= i { i - t } else { i + n - t }
}

/// The first selectable item at or after `i` (at least `t` steps on), or
/// `items.len()` when there is none.
pub open spec fn scan_fwd(items: Seq<MenuItem>, i: int, t: int) -> int
    decreases items.len() - t,
{
    if t >= items.len() {
        items.len() as int
    } else if items[ring_fwd(i, t, items.len() as int)].selectable() {
        ring_fwd(i, t, items.len() as int)
    } else {
        scan_fwd(items, i, t + 1)
    }
}

/// The first selectable item at or before `i` (at least `t` steps back),
/// or `items.len()` when there is none.
pub open spec fn scan_bwd(items: Seq<MenuItem>, i: int, t: int) -> int
    decreases items.len() - t,
{
    if t >= items.len() {
        items.len() as int
    } else if items[ring_bwd(i, t, items.len() as int)].selectable() {
        ring_bwd(i, t, items.len() as int)
    } else {
        scan_bwd(items, i, t + 1)
    }
}

/// Some item of `items` can be selected.
pub open spec fn has_selectable(items: Seq<MenuItem>) -> bool {
    exists|j: int| 0 <= j < items.len() && (#[trigger] items[j]).selectable()
}

/// Once `scan_fwd` passes step `t` it finds any selectable item lying further on.
proof fn lemma_scan_fwd_finds(items: Seq<MenuItem>, i: int, t: int, j: int, tj: int)
    requires
        0 <= i < items.len(),
        0 <= t <= tj < items.len(),
        j == ring_fwd(i, tj, items.len() as int),
        items[j].selectable(),
    ensures
        0 <= scan_fwd(items, i, t) < items.len(),
        items[scan_fwd(items, i, t)].selectable(),
    decreases items.len() - t,
{
    if !items[ring_fwd(i, t, items.len() as int)].selectable() {
        lemma_scan_fwd_finds(items, i, t + 1, j, tj);
    }
}

/// Once `scan_bwd` passes step `t` it finds any selectable item lying further back.
proof fn lemma_scan_bwd_finds(items: Seq<MenuItem>, i: int, t: int, j: int, tj: int)
    requires
        0 <= i < items.len(),
        0 <= t <= tj < items.len(),
        j == ring_bwd(i, tj, items.len() as int),
        items[j].selectable(),
    ensures
        0 <= scan_bwd(items, i, t) < items.len(),
        items[scan_bwd(items, i, t)].selectable(),
    decreases items.len() - t,
{
    if !items[ring_bwd(i, t, items.len() as int)].selectable() {
        lemma_scan_bwd_finds(items, i, t + 1, j, tj);
    }
}

/// With a selectable item present, both scans find one.
proof fn lemma_scans_find(items: Seq<MenuItem>, i: int)
    requires
        0 <= i < items.len(),
        has_selectable(items),
    ensures
        0 <= scan_fwd(items, i, 0) < items.len(),
        items[scan_fwd(items, i, 0)].selectable(),
        0 <= scan_bwd(items, i, 0) < items.len(),
        items[scan_bwd(items, i, 0)].selectable(),
{
    let n = items.len() as int;
    let j = choose|j: int| 0 <= j < n && (#[trigger] items[j]).selectable();
    let tf = if j >= i { j - i } else { j + n - i };
    lemma_scan_fwd_finds(items, i, 0, j, tf);
    let tb = if j <= i { i - j } else { i + n - j };
    lemma_scan_bwd_finds(items, i, 0, j, tb);
}

/// The in-game menu.
#[derive(Debug)]
pub struct GameMenu {
    /// Which page is open.
    pub state: GameMenuState,
    /// Whether this is a multiplayer game.
    pub is_multiplayer: bool,
    /// Items of the main page.
    pub main_items: Vec<MenuItem>,
    /// Items of the options page.
    pub options_items: Vec<MenuItem>,
    /// The selected item of the open page.
    pub selected_index: usize,
    /// Music volume.
    pub music_volume: i32,
    /// Sound volume.
    pub sound_volume: i32,
    /// Brightness.
    pub brightness: i32,
    /// Game speed.
    pub game_speed: i32,
    /// Whether music plays.
    pub music_on: bool,
    /// Whether sound plays.
    pub sound_on: bool,
}

impl GameMenu {
    /// The items of the open page: none while closed.
    pub open spec fn spec_current_items(&self) -> Seq<MenuItem> {
        match self.state {
            GameMenuState::Main => self.main_items@,
            GameMenuState::Options => self.options_items@,
            GameMenuState::Closed => Seq::empty(),
        }
    }

    /// The four option sliders exist and each has a non-empty range.
    pub open spec fn options_ready(&self) -> bool {
        &&& self.options_items@.len() >= 4
        &&& forall|i: int|
            0 <= i < 4 ==> (#[trigger] self.options_items@[i]).slider_min
                <= self.options_items@[i].slider_max
    }

    /// The main page as built for a single- or multiplayer game.
    pub open spec fn main_page_built(items: Seq<MenuItem>, multiplayer: bool) -> bool {
        if !multiplayer {
            &&& items.len() == 5
            &&& is_button(items[0], "选项"@)
            &&& is_button(items[1], "保存游戏"@)
            &&& is_button(items[2], "加载游戏"@)
            &&& is_button(items[3], "返回主菜单"@)
            &&& is_button(items[4], "退出游戏"@)
        } else {
            &&& items.len() == 3
            &&& is_button(items[0], "选项"@)
            &&& is_button(items[1], "返回主菜单"@)
            &&& is_button(items[2], "退出游戏"@)
        }
    }

    /// The options page as built: four sliders and a back button; the
    /// speed slider is switched off in multiplayer games.
    pub open spec fn options_page_built(
        items: Seq<MenuItem>,
        multiplayer: bool,
        music: int,
        sound: int,
        brightness: int,
        speed: int,
    ) -> bool {
        &&& items.len() == 5
        &&& is_slider_over(items[0], "音乐"@, 0, 100, music, 3)
        &&& is_slider_over(items[1], "音效"@, 0, 100, sound, 3)
        &&& is_slider_over(items[2], "亮度"@, 0, 100, brightness, 3)
        &&& is_slider_over(items[3], "速度"@, 20, 50, speed, if multiplayer { 0 } else { 3 })
        &&& is_button(items[4], "返回上一菜单"@)
    }

    /// A closed menu with full volume, brightness 50, speed 20, and both
    /// pages built.
    pub fn new(is_multiplayer: bool) -> (m: Self)
        ensures
            m.state == GameMenuState::Closed,
            m.is_multiplayer == is_multiplayer,
            m.selected_index == 0,
            m.music_volume == VOLUME_MAX,
            m.sound_volume == VOLUME_MAX,
            m.brightness == 50,
            m.game_speed == 20,
            m.music_on,
            m.sound_on,
            Self::main_page_built(m.main_items@, is_multiplayer),
            Self::options_page_built(m.options_items@, is_multiplayer, 100, 100, 50, 20),
            m.options_ready(),
    {
        let mut menu = GameMenu {
            state: GameMenuState::Closed,
            is_multiplayer,
            main_items: Vec::new(),
            options_items: Vec::new(),
            selected_index: 0,
            music_volume: VOLUME_MAX,
            sound_volume: VOLUME_MAX,
            brightness: 50,
            game_speed: 20,
            music_on: true,
            sound_on: true,
        };
        menu.init_menus();
        menu
    }

    /// Builds both pages from the current settings.
    fn init_menus(&mut self)
        ensures
            final(self).state == old(self).state,
            final(self).is_multiplayer == old(self).is_multiplayer,
            final(self).selected_index == old(self).selected_index,
            final(self).music_volume == old(self).music_volume,
            final(self).sound_volume == old(self).sound_volume,
            final(self).brightness == old(self).brightness,
            final(self).game_speed == old(self).game_speed,
            final(self).music_on == old(self).music_on,
            final(self).sound_on == old(self).sound_on,
            Self::main_page_built(final(self).main_items@, old(self).is_multiplayer),
            Self::options_page_built(
                final(self).options_items@,
                old(self).is_multiplayer,
                old(self).music_volume as int,
                old(self).sound_volume as int,
                old(self).brightness as int,
                old(self).game_speed as int,
            ),
    {
        if !self.is_multiplayer {
            self.main_items = vec![
                MenuItem::new("选项"),
                MenuItem::new("保存游戏"),
                MenuItem::new("加载游戏"),
                MenuItem::new("返回主菜单"),
                MenuItem::new("退出游戏"),
            ];
        } else {
            self.main_items = vec![
                MenuItem::new("选项"),
                MenuItem::new("返回主菜单"),
                MenuItem::new("退出游戏"),
            ];
        }
        self.options_items = vec![
            MenuItem::slider("音乐", VOLUME_MIN, VOLUME_MAX, self.music_volume),
            MenuItem::slider("音效", VOLUME_MIN, VOLUME_MAX, self.sound_volume),
            MenuItem::slider("亮度", 0, 100, self.brightness),
            MenuItem::slider("速度", 20, 50, self.game_speed),
            MenuItem::new("返回上一菜单"),
        ];
        if self.is_multiplayer {
            self.options_items[3].remove_flags(menu_flags::ENABLED | menu_flags::SLIDER);
            assert(3u32 & !(1u32 | 2u32) == 0u32) by (bit_vector);
        }
    }

    /// Opens the main page with the first item selected.
    pub fn open(&mut self)
        ensures
            *final(self) == (GameMenu {
                state: GameMenuState::Main,
                selected_index: 0,
                ..*old(self)
            }),
    {
        self.state = GameMenuState::Main;
        self.selected_index = 0;
        self.update_main_menu();
    }

    /// Closes the menu.
    pub fn close(&mut self)
        ensures
            *final(self) == (GameMenu { state: GameMenuState::Closed, ..*old(self) }),
    {
        self.state = GameMenuState::Closed;
    }

    /// Closes an open menu, opens a closed one.
    pub fn toggle(&mut self)
        ensures
            old(self).state != GameMenuState::Closed ==> *final(self) == (GameMenu {
                state: GameMenuState::Closed,
                ..*old(self)
            }),
            old(self).state == GameMenuState::Closed ==> *final(self) == (GameMenu {
                state: GameMenuState::Main,
                selected_index: 0,
                ..*old(self)
            }),
    {
        if self.is_open() {
            self.close();
        } else {
            self.open();
        }
    }

    /// Whether the menu is open.
    pub fn is_open(&self) -> (b: bool)
        ensures
            b == (self.state != GameMenuState::Closed),
    {
        self.state != GameMenuState::Closed
    }

    /// Refreshes the main page (the load button needs no change here).
    fn update_main_menu(&mut self)
        ensures
            *final(self) == *old(self),
    {
    }

    /// Opens the options page with the first item selected and the sliders
    /// showing the current settings.
    pub fn open_options(&mut self)
        requires
            old(self).options_ready(),
        ensures
            final(self).state == GameMenuState::Options,
            final(self).selected_index == 0,
            final(self).options_updated(old(self)),
            final(self).options_ready(),
    {
        self.state = GameMenuState::Options;
        self.selected_index = 0;
        self.update_options_menu();
    }

    /// The options page of `self` is that of `prev` refreshed from the
    /// settings of `prev`; all else but state and selection is kept.
    pub open spec fn options_updated(&self, prev: &GameMenu) -> bool {
        let o = prev.options_items@;
        let music_item = if prev.music_on {
            MenuItem { flags: o[0].flags | 3 , ..o[0] }
        } else {
            MenuItem { flags: o[0].flags & !menu_flags::SLIDER, ..o[0] }
        };
        let sound_item = if prev.sound_on {
            MenuItem { flags: o[1].flags | 3, ..o[1] }
        } else {
            MenuItem { flags: o[1].flags & !menu_flags::SLIDER, ..o[1] }
        };
        &&& self.options_items@.len() == o.len()
        &&& forall|i: int| 4 <= i < o.len() ==> #[trigger] self.options_items@[i] == o[i]
        &&& self.options_items@[0].flags == music_item.flags
        &&& self.options_items@[0].text matches Some(t) && t@ == (if prev.music_on {
            "音乐"@
        } else {
            "音乐（已禁用）"@
        })
        &&& self.options_items@[0].slider_value == clamp_int(
            prev.music_volume as int,
            o[0].slider_min as int,
            o[0].slider_max as int,
        )
        &&& self.options_items@[1].flags == sound_item.flags
        &&& self.options_items@[1].text matches Some(t) && t@ == (if prev.sound_on {
            "音效"@
        } else {
            "音效（已禁用）"@
        })
        &&& self.options_items@[1].slider_value == clamp_int(
            prev.sound_volume as int,
            o[1].slider_min as int,
            o[1].slider_max as int,
        )
        &&& self.options_items@[2] == (MenuItem {
            slider_value: clamp_int(
                prev.brightness as int,
                o[2].slider_min as int,
                o[2].slider_max as int,
            ) as i32,
            ..o[2]
        })
        &&& self.options_items@[3] == (MenuItem {
            slider_value: clamp_int(
                prev.game_speed as int,
                o[3].slider_min as int,
                o[3].slider_max as int,
            ) as i32,
            ..o[3]
        })
        &&& forall|i: int|
            0 <= i < 2 ==> {
                &&& (#[trigger] self.options_items@[i]).item_type == o[i].item_type
                &&& self.options_items@[i].slider_min == o[i].slider_min
                &&& self.options_items@[i].slider_max == o[i].slider_max
                &&& self.options_items@[i].slider_steps == o[i].slider_steps
            }
        &&& self.is_multiplayer == prev.is_multiplayer
        &&& self.main_items == prev.main_items
        &&& self.music_volume == prev.music_volume
        &&& self.sound_volume == prev.sound_volume
        &&& self.brightness == prev.brightness
        &&& self.game_speed == prev.game_speed
        &&& self.music_on == prev.music_on
        &&& self.sound_on == prev.sound_on
    }

    /// Refreshes the options page from the settings.
    fn update_options_menu(&mut self)
        requires
            old(self).options_ready(),
        ensures
            final(self).options_updated(old(self)),
            final(self).options_ready(),
            final(self).state == old(self).state,
            final(self).selected_index == old(self).selected_index,
    {
        assert(1u32 | 2u32 == 3u32) by (bit_vector);
        if self.music_on {
            self.options_items[0].add_flags(menu_flags::ENABLED | menu_flags::SLIDER);
            self.options_items[0].text = Some("音乐".to_owned());
        } else {
            self.options_items[0].remove_flags(menu_flags::SLIDER);
            self.options_items[0].text = Some("音乐（已禁用）".to_owned());
        }
        if self.sound_on {
            self.options_items[1].add_flags(menu_flags::ENABLED | menu_flags::SLIDER);
            self.options_items[1].text = Some("音效".to_owned());
        } else {
            self.options_items[1].remove_flags(menu_flags::SLIDER);
            self.options_items[1].text = Some("音效（已禁用）".to_owned());
        }
        let music = self.music_volume;
        let sound = self.sound_volume;
        let brightness = self.brightness;
        let speed = self.game_speed;
        self.options_items[0].set_slider_value(music);
        self.options_items[1].set_slider_value(sound);
        self.options_items[2].set_slider_value(brightness);
        self.options_items[3].set_slider_value(speed);
    }

    /// Goes back one page: from options to the main page (first item
    /// selected), from the main page to closed.
    pub fn go_back(&mut self)
        ensures
            old(self).state == GameMenuState::Options ==> *final(self) == (GameMenu {
                state: GameMenuState::Main,
                selected_index: 0,
                ..*old(self)
            }),
            old(self).state == GameMenuState::Main ==> *final(self) == (GameMenu {
                state: GameMenuState::Closed,
                ..*old(self)
            }),
            old(self).state == GameMenuState::Closed ==> *final(self) == *old(self),
    {
        match self.state {
            GameMenuState::Options => {
                self.state = GameMenuState::Main;
                self.selected_index = 0;
            },
            GameMenuState::Main => {
                self.close();
            },
            GameMenuState::Closed => {},
        }
    }

    /// Selects the previous selectable item of the open page, wrapping
    /// around; separators and disabled items are skipped.
    pub fn select_prev(&mut self)
        requires
            old(self).spec_current_items().len() > 0 ==> {
                &&& old(self).selected_index <= old(self).spec_current_items().len()
                &&& has_selectable(old(self).spec_current_items())
            },
        ensures
            old(self).spec_current_items().len() == 0 ==> *final(self) == *old(self),
            old(self).spec_current_items().len() > 0 ==> {
                let items = old(self).spec_current_items();
                let first = if old(self).selected_index == 0 {
                    items.len() - 1
                } else {
                    old(self).selected_index - 1
                };
                &&& *final(self) == (GameMenu {
                    selected_index: scan_bwd(items, first, 0) as usize,
                    ..*old(self)
                })
                &&& final(self).selected_index < items.len()
                &&& items[final(self).selected_index as int].selectable()
            },
    {
        let items_len = self.current_items().len();
        if items_len == 0 {
            return;
        }
        let ghost items = self.spec_current_items();
        let first = if self.selected_index == 0 {
            items_len - 1
        } else {
            self.selected_index - 1
        };
        proof {
            lemma_scans_find(items, first as int);
        }
        let mut t: usize = 0;
        self.selected_index = first;
        loop
            invariant_except_break
                t < items_len,
                self.selected_index == ring_bwd(first as int, t as int, items_len as int),
                scan_bwd(items, first as int, t as int) == scan_bwd(items, first as int, 0),
            invariant
                self.spec_current_items() == items,
                items.len() == items_len,
                0 <= first < items_len,
                0 <= scan_bwd(items, first as int, 0) < items_len,
                items[scan_bwd(items, first as int, 0)].selectable(),
                *self == (GameMenu { selected_index: self.selected_index, ..*old(self) }),
            ensures
                self.selected_index == scan_bwd(items, first as int, 0),
            decreases items_len - t,
        {
            let item = &self.current_items()[self.selected_index];
            if item.item_type != MenuItemType::Separator && item.is_enabled() {
                break;
            }
            assert(scan_bwd(items, first as int, t as int) == scan_bwd(
                items,
                first as int,
                t + 1,
            ));
            t = t + 1;
            self.selected_index = if self.selected_index == 0 {
                items_len - 1
            } else {
                self.selected_index - 1
            };
        }
    }

    /// Selects the next selectable item of the open page, wrapping around;
    /// separators and disabled items are skipped.
    pub fn select_next(&mut self)
        requires
            old(self).spec_current_items().len() > 0 ==> {
                &&& old(self).selected_index < usize::MAX
                &&& has_selectable(old(self).spec_current_items())
            },
        ensures
            old(self).spec_current_items().len() == 0 ==> *final(self) == *old(self),
            old(self).spec_current_items().len() > 0 ==> {
                let items = old(self).spec_current_items();
                let first = (old(self).selected_index + 1) % (items.len() as int);
                &&& *final(self) == (GameMenu {
                    selected_index: scan_fwd(items, first, 0) as usize,
                    ..*old(self)
                })
                &&& final(self).selected_index < items.len()
                &&& items[final(self).selected_index as int].selectable()
            },
    {
        let items_len = self.current_items().len();
        if items_len == 0 {
            return;
        }
        let ghost items = self.spec_current_items();
        let first = (self.selected_index + 1) % items_len;
        proof {
            lemma_scans_find(items, first as int);
        }
        let mut t: usize = 0;
        self.selected_index = first;
        loop
            invariant_except_break
                t < items_len,
                self.selected_index == ring_fwd(first as int, t as int, items_len as int),
                scan_fwd(items, first as int, t as int) == scan_fwd(items, first as int, 0),
            invariant
                self.spec_current_items() == items,
                items.len() == items_len,
                0 <= first < items_len,
                0 <= scan_fwd(items, first as int, 0) < items_len,
                items[scan_fwd(items, first as int, 0)].selectable(),
                *self == (GameMenu { selected_index: self.selected_index, ..*old(self) }),
            ensures
                self.selected_index == scan_fwd(items, first as int, 0),
            decreases items_len - t,
        {
            let item = &self.current_items()[self.selected_index];
            if item.item_type != MenuItemType::Separator && item.is_enabled() {
                break;
            }
            assert(scan_fwd(items, first as int, t as int) == scan_fwd(
                items,
                first as int,
                t + 1,
            ));
            t = t + 1;
            let next = self.selected_index + 1;
            self.selected_index = if next == items_len { 0 } else { next };
        }
    }

    /// The items of the open page.
    pub fn current_items(&self) -> (s: &[MenuItem])
        ensures
            s@ == self.spec_current_items(),
    {
        match self.state {
            GameMenuState::Main => self.main_items.as_slice(),
            GameMenuState::Options => self.options_items.as_slice(),
            GameMenuState::Closed => &[],
        }
    }

    /// The selected item of the open page, if the selection points at one.
    pub fn selected_item(&self) -> (r: Option<&MenuItem>)
        ensures
            self.selected_index < self.spec_current_items().len() ==> r == Some(
                &self.spec_current_items()[self.selected_index as int],
            ),
            self.selected_index >= self.spec_current_items().len() ==> r is None,
    {
        let items = self.current_items();
        if self.selected_index < items.len() {
            Some(&items[self.selected_index])
        } else {
            None
        }
    }

    /// On the options page, moves the selected slider by `delta` steps of
    /// a `slider_steps`-th of its range, and stores the new value in the
    /// matching setting; music and sound turn off at the lowest volume.
    pub fn adjust_slider(&mut self, delta: i32)
        requires
            old(self).state == GameMenuState::Options && old(self).selected_index < old(self).options_items@.len() && old(self).options_items@[old(self).selected_index as int].spec_is_slider() ==> {
                let it = old(self).options_items@[old(self).selected_index as int];
                let steps = if it.slider_steps < 1 { 1 } else { it.slider_steps as int };
                &&& i32::MIN <= it.slider_max - it.slider_min <= i32::MAX
                &&& i32::MIN <= delta * trunc_div(it.slider_max - it.slider_min, steps)
                    <= i32::MAX
                &&& i32::MIN <= it.slider_value + delta * trunc_div(
                    it.slider_max - it.slider_min,
                    steps,
                ) <= i32::MAX
                &&& it.slider_min <= it.slider_max
            },
        ensures
            ({
                let i = old(self).selected_index as int;
                let it = old(self).options_items@[i];
                let steps = if it.slider_steps < 1 { 1 } else { it.slider_steps as int };
                let v = clamp_int(
                    it.slider_value + delta * trunc_div(it.slider_max - it.slider_min, steps),
                    it.slider_min as int,
                    it.slider_max as int,
                ) as i32;
                if old(self).state == GameMenuState::Options && i < old(self).options_items@.len() && it.spec_is_slider() {
                    &&& final(self).options_items@ == old(self).options_items@.update(
                        i,
                        MenuItem { slider_value: v, ..it },
                    )
                    &&& final(self).music_volume == (if i == 0 {
                        v
                    } else {
                        old(self).music_volume
                    })
                    &&& final(self).music_on == (if i == 0 {
                        v > VOLUME_MIN
                    } else {
                        old(self).music_on
                    })
                    &&& final(self).sound_volume == (if i == 1 {
                        v
                    } else {
                        old(self).sound_volume
                    })
                    &&& final(self).sound_on == (if i == 1 {
                        v > VOLUME_MIN
                    } else {
                        old(self).sound_on
                    })
                    &&& final(self).brightness == (if i == 2 {
                        v
                    } else {
                        old(self).brightness
                    })
                    &&& final(self).game_speed == (if i == 3 {
                        v
                    } else {
                        old(self).game_speed
                    })
                    &&& final(self).state == old(self).state
                    &&& final(self).selected_index == old(self).selected_index
                    &&& final(self).main_items == old(self).main_items
                    &&& final(self).is_multiplayer == old(self).is_multiplayer
                } else {
                    *final(self) == *old(self)
                }
            }),
    {
        if self.state != GameMenuState::Options {
            return;
        }
        let i = self.selected_index;
        if i < self.options_items.len() && self.options_items[i].is_slider() {
            let item = &mut self.options_items[i];
            let steps = if item.slider_steps < 1 { 1 } else { item.slider_steps };
            let step = div_i32(item.slider_max - item.slider_min, steps);
            item.set_slider_value(item.slider_value + delta * step);
            let value = item.slider_value;
            if i == 0 {
                self.music_volume = value;
                self.music_on = self.music_volume > VOLUME_MIN;
            } else if i == 1 {
                self.sound_volume = value;
                self.sound_on = self.sound_volume > VOLUME_MIN;
            } else if i == 2 {
                self.brightness = value;
            } else if i == 3 {
                self.game_speed = value;
            }
        }
    }

    /// Switches music on (full volume) or off (lowest volume) and refreshes
    /// the options page.
    pub fn toggle_music(&mut self)
        requires
            old(self).options_ready(),
        ensures
            final(self).music_on == !old(self).music_on,
            final(self).music_volume == (if final(self).music_on {
                VOLUME_MAX
            } else {
                VOLUME_MIN
            }),
            final(self).options_updated(
                &GameMenu {
                    music_on: !old(self).music_on,
                    music_volume: if !old(self).music_on { VOLUME_MAX } else { VOLUME_MIN },
                    ..*old(self)
                },
            ),
            final(self).options_ready(),
            final(self).state == old(self).state,
            final(self).selected_index == old(self).selected_index,
    {
        self.music_on = !self.music_on;
        if self.music_on {
            self.music_volume = VOLUME_MAX;
        } else {
            self.music_volume = VOLUME_MIN;
        }
        self.update_options_menu();
    }

    /// Switches sound on (full volume) or off (lowest volume) and refreshes
    /// the options page.
    pub fn toggle_sound(&mut self)
        requires
            old(self).options_ready(),
        ensures
            final(self).sound_on == !old(self).sound_on,
            final(self).sound_volume == (if final(self).sound_on {
                VOLUME_MAX
            } else {
                VOLUME_MIN
            }),
            final(self).options_updated(
                &GameMenu {
                    sound_on: !old(self).sound_on,
                    sound_volume: if !old(self).sound_on { VOLUME_MAX } else { VOLUME_MIN },
                    ..*old(self)
                },
            ),
            final(self).options_ready(),
            final(self).state == old(self).state,
            final(self).selected_index == old(self).selected_index,
    {
        self.sound_on = !self.sound_on;
        if self.sound_on {
            self.sound_volume = VOLUME_MAX;
        } else {
            self.sound_volume = VOLUME_MIN;
        }
        self.update_options_menu();
    }
}

impl Default for GameMenu {
    fn default() -> (m: Self)
        ensures
            m.state == GameMenuState::Closed,
            !m.is_multiplayer,
            m.selected_index == 0,
            Self::main_page_built(m.main_items@, false),
            Self::options_page_built(m.options_items@, false, 100, 100, 50, 20),
    {
        Self::new(false)
    }
}

/// The action a menu choice leads to.
#[derive(Debug, Clone, Copy, PartialEq, Eq, Structural)]
pub enum MenuAction {
    /// Nothing happens.
    Nothing,
    /// Open the options page.
    OpenOptions,
    /// Save the game.
    SaveGame,
    /// Load a game.
    LoadGame,
    /// Return to the main menu.
    ExitToMainMenu,
    /// Quit the game.
    QuitGame,
    /// Go back one page.
    GoBack,
}

/// When every item is selectable, the next and then the previous item is
/// the one selected first.
pub proof fn lemma_next_then_prev(items: Seq<MenuItem>, start: int)
    requires
        0 <= start < items.len(),
        forall|i: int| 0 <= i < items.len() ==> (#[trigger] items[i]).selectable(),
    ensures
        ({
            let n = items.len() as int;
            let next = scan_fwd(items, (start + 1) % n, 0);
            let before = if next == 0 { n - 1 } else { next - 1 };
            scan_bwd(items, before, 0) == start
        }),
{
    let n = items.len() as int;
    let f = (start + 1) % n;
    assert(f == if start + 1 < n { start + 1 } else { 0 }) by {
        if start + 1 < n {
            vstd::arithmetic::div_mod::lemma_small_mod((start + 1) as nat, n as nat);
        } else {
            vstd::arithmetic::div_mod::lemma_mod_self_0(n);
        }
    }
    assert(items[f].selectable());
    assert(scan_fwd(items, f, 0) == f);
    let before = if f == 0 { n - 1 } else { f - 1 };
    assert(before == start);
    assert(items[before].selectable());
}

/// Opens the game menu: marks it open and opens the menu, if there is one.
pub fn gamemenu_on(is_game_menu_open: &mut bool, game_menu: &mut Option<GameMenu>)
    ensures
        *final(is_game_menu_open),
        *final(game_menu) == (match *old(game_menu) {
            Some(m) => Some(GameMenu { state: GameMenuState::Main, selected_index: 0, ..m }),
            None => None,
        }),
{
    *is_game_menu_open = true;
    match game_menu {
        Some(menu) => menu.open(),
        None => {},
    }
}

/// Closes the game menu: marks it closed and closes the menu, if there is
/// one.
pub fn gamemenu_off(is_game_menu_open: &mut bool, game_menu: &mut Option<GameMenu>)
    ensures
        !*final(is_game_menu_open),
        *final(game_menu) == (match *old(game_menu) {
            Some(m) => Some(GameMenu { state: GameMenuState::Closed, ..m }),
            None => None,
        }),
{
    *is_game_menu_open = false;
    match game_menu {
        Some(menu) => menu.close(),
        None => {},
    }
}

/// Toggles the game menu, if there is one, and marks it open as the menu
/// now is; without a menu nothing changes.
pub fn gamemenu_handle_previous(is_game_menu_open: &mut bool, game_menu: &mut Option<GameMenu>)
    ensures
        match *old(game_menu) {
            Some(m) => {
                let toggled = if m.state != GameMenuState::Closed {
                    GameMenu { state: GameMenuState::Closed, ..m }
                } else {
                    GameMenu { state: GameMenuState::Main, selected_index: 0, ..m }
                };
                &&& *final(game_menu) == Some(toggled)
                &&& *final(is_game_menu_open) == (toggled.state != GameMenuState::Closed)
            },
            None => *final(game_menu) == *old(game_menu) && *final(is_game_menu_open)
                == *old(is_game_menu_open),
        },
{
    match game_menu {
        Some(menu) => {
            menu.toggle();
            *is_game_menu_open = menu.is_open();
        },
        None => {},
    }
}

} // verus!
