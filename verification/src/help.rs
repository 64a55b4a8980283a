//! The in-game help screen: its text and its scrolling.

use vstd::prelude::*;
use vstd::string::StringSliceAdditionalSpecFns;

verus! {

/// Number of help lines visible at once.
pub const HELP_VISIBLE_LINES: usize = 16;

/// The help text, line by line.
pub open spec fn help_text_spec() -> Seq<Seq<char>> {
    seq![
        "控制说明:"@,
        ""@,
        "移动:"@,
        "  左键点击地面移动角色"@,
        "  按住Shift键可原地攻击"@,
        ""@,
        "攻击:"@,
        "  左键点击怪物进行攻击"@,
        "  右键使用当前技能/法术"@,
        ""@,
        "物品:"@,
        "  左键点击物品拾取"@,
        "  拖拽物品到装备栏装备"@,
        "  右键点击物品使用"@,
        ""@,
        "快捷键:"@,
        ""@,
        "  Tab - 显示/隐藏地图"@,
        "  I - 打开物品栏"@,
        "  C - 打开角色面板"@,
        "  S - 打开技能树"@,
        "  Q - 打开任务日志"@,
        "  B - 打开法术书"@,
        ""@,
        "  F1 - 显示帮助"@,
        "  F5-F8 - 快速保存/读取"@,
        "  Esc - 打开菜单"@,
        ""@,
        "战斗提示:"@,
        ""@,
        "  注意生命值和法力值"@,
        "  使用药水恢复状态"@,
        "  升级提高角色属性"@,
        "  装备更好的武器和防具"@,
        ""@,
        "多人游戏:"@,
        ""@,
        "  Enter - 打开聊天框"@,
        "  发送消息与其他玩家交流"@,
        ""@,
    ]
}

/// The help text, line by line.
pub fn help_text() -> (lines: Vec<&'static str>)
    ensures
        lines@.len() == help_text_spec().len(),
        forall|i: int| 0 <= i < lines@.len() ==> (#[trigger] lines@[i])@ == help_text_spec()[i],
{
    let v = vec![
        "控制说明:",
        "",
        "移动:",
        "  左键点击地面移动角色",
        "  按住Shift键可原地攻击",
        "",
        "攻击:",
        "  左键点击怪物进行攻击",
        "  右键使用当前技能/法术",
        "",
        "物品:",
        "  左键点击物品拾取",
        "  拖拽物品到装备栏装备",
        "  右键点击物品使用",
        "",
        "快捷键:",
        "",
        "  Tab - 显示/隐藏地图",
        "  I - 打开物品栏",
        "  C - 打开角色面板",
        "  S - 打开技能树",
        "  Q - 打开任务日志",
        "  B - 打开法术书",
        "",
        "  F1 - 显示帮助",
        "  F5-F8 - 快速保存/读取",
        "  Esc - 打开菜单",
        "",
        "战斗提示:",
        "",
        "  注意生命值和法力值",
        "  使用药水恢复状态",
        "  升级提高角色属性",
        "  装备更好的武器和防具",
        "",
        "多人游戏:",
        "",
        "  Enter - 打开聊天框",
        "  发送消息与其他玩家交流",
        "",
    ];
    assert(v@.len() == help_text_spec().len());
    v
}

/// A header line: the encoded text ends with `:` and does not start with a
/// space.
pub open spec fn is_header_bytes(bytes: Seq<u8>) -> bool {
    bytes.len() > 0 && bytes[bytes.len() - 1] == 58 && bytes[0] != 32
}

/// One line of help text.
#[derive(Debug, Clone)]
pub struct HelpTextLine {
    /// The text.
    pub text: String,
    /// Whether it is a header.
    pub is_header: bool,
}

impl HelpTextLine {
    /// A plain line.
    pub fn new(text: &str) -> (line: Self)
        ensures
            line.text@ == text@,
            !line.is_header,
    {
        HelpTextLine { text: text.to_owned(), is_header: false }
    }

    /// A header line.
    pub fn header(text: &str) -> (line: Self)
        ensures
            line.text@ == text@,
            line.is_header,
    {
        HelpTextLine { text: text.to_owned(), is_header: true }
    }
}

/// Whether `text` ends with `:` and does not start with a space.
fn is_header_text(text: &str) -> (b: bool)
    ensures
        b == is_header_bytes(text.spec_bytes()),
{
    let bytes = text.as_bytes();
    let n = bytes.len();
    n > 0 && bytes[n - 1] == 58u8 && bytes[0] != 32u8
}

/// The default help lines: each text of `help_text`, a header where it ends
/// with `:` and does not start with a space.
pub open spec fn default_lines_match(lines: Seq<HelpTextLine>, texts: Seq<&'static str>) -> bool {
    &&& lines.len() == texts.len()
    &&& forall|i: int|
        0 <= i < lines.len() ==> {
            &&& (#[trigger] lines[i]).text@ == texts[i]@
            &&& lines[i].is_header == is_header_bytes(texts[i].spec_bytes())
        }
}

/// Builds the default help lines.
fn default_lines() -> (lines: Vec<HelpTextLine>)
    ensures
        lines@.len() == help_text_spec().len(),
        forall|i: int|
            0 <= i < lines@.len() ==> (#[trigger] lines@[i]).text@ == help_text_spec()[i],
        exists|texts: Seq<&'static str>|
            texts.len() == help_text_spec().len() && (forall|i: int|
                0 <= i < texts.len() ==> (#[trigger] texts[i])@ == help_text_spec()[i])
                && default_lines_match(lines@, texts),
{
    let texts = help_text();
    let mut lines: Vec<HelpTextLine> = Vec::new();
    let mut i: usize = 0;
    while i < texts.len()
        invariant
            0 <= i <= texts@.len(),
            texts@.len() == help_text_spec().len(),
            forall|j: int| 0 <= j < texts@.len() ==> (#[trigger] texts@[j])@ == help_text_spec()[j],
            default_lines_match(lines@, texts@.subrange(0, i as int)),
        decreases texts@.len() - i,
    {
        let text = texts[i];
        let line = if is_header_text(text) {
            HelpTextLine::header(text)
        } else {
            HelpTextLine::new(text)
        };
        lines.push(line);
        i = i + 1;
        assert(texts@.subrange(0, i as int) =~= texts@.subrange(0, i - 1).push(text));
    }
    assert(texts@.subrange(0, i as int) =~= texts@);
    assert forall|k: int| 0 <= k < lines@.len() implies (#[trigger] lines@[k]).text@
        == help_text_spec()[k] by {
        assert(lines@[k].text@ == texts@[k]@);
    }
    lines
}

/// The help screen.
#[derive(Debug)]
pub struct HelpSystem {
    /// Whether the help is shown.
    pub visible: bool,
    /// The first line shown.
    pub scroll_position: usize,
    /// The help lines.
    pub lines: Vec<HelpTextLine>,
    /// The number of lines.
    pub total_lines: usize,
}

/// The furthest scroll position for `total` lines.
pub open spec fn max_scroll(total: int) -> int {
    if total > HELP_VISIBLE_LINES { total - HELP_VISIBLE_LINES } else { 0 }
}

impl HelpSystem {
    /// The line count matches the lines and the position is in range.
    pub open spec fn wf(&self) -> bool {
        &&& self.total_lines == self.lines@.len()
        &&& self.scroll_position <= max_scroll(self.total_lines as int)
    }

    /// The lines are the default help text.
    pub open spec fn has_default_lines(&self) -> bool {
        &&& self.lines@.len() == help_text_spec().len()
        &&& forall|i: int|
            0 <= i < self.lines@.len() ==> (#[trigger] self.lines@[i]).text@
                == help_text_spec()[i]
        &&& exists|texts: Seq<&'static str>|
            texts.len() == help_text_spec().len() && (forall|i: int|
                0 <= i < texts.len() ==> (#[trigger] texts[i])@ == help_text_spec()[i])
                && default_lines_match(self.lines@, texts)
    }

    /// A hidden help screen at the top of the default text.
    pub fn new() -> (h: Self)
        ensures
            h.wf(),
            !h.visible,
            h.scroll_position == 0,
            h.has_default_lines(),
            h.total_lines == help_text_spec().len(),
    {
        let lines = default_lines();
        let total_lines = lines.len();
        HelpSystem { visible: false, scroll_position: 0, lines, total_lines }
    }

    /// Hides the help and scrolls to the top.
    pub fn init(&mut self)
        ensures
            *final(self) == (HelpSystem { visible: false, scroll_position: 0, ..*old(self) }),
    {
        self.visible = false;
        self.scroll_position = 0;
    }

    /// Shows the help from the top.
    pub fn display(&mut self)
        ensures
            *final(self) == (HelpSystem { visible: true, scroll_position: 0, ..*old(self) }),
    {
        self.visible = true;
        self.scroll_position = 0;
    }

    /// Hides the help.
    pub fn hide_help(&mut self)
        ensures
            *final(self) == (HelpSystem { visible: false, ..*old(self) }),
    {
        self.visible = false;
    }

    /// Hides shown help, shows hidden help from the top.
    pub fn toggle(&mut self)
        ensures
            old(self).visible ==> *final(self) == (HelpSystem { visible: false, ..*old(self) }),
            !old(self).visible ==> *final(self) == (HelpSystem {
                visible: true,
                scroll_position: 0,
                ..*old(self)
            }),
    {
        if self.visible {
            self.hide_help();
        } else {
            self.display();
        }
    }

    /// Scrolls up one line, if possible.
    pub fn scroll_up(&mut self)
        ensures
            *final(self) == (HelpSystem {
                scroll_position: if old(self).scroll_position > 0 {
                    (old(self).scroll_position - 1) as usize
                } else {
                    0
                },
                ..*old(self)
            }),
    {
        if self.scroll_position > 0 {
            self.scroll_position = self.scroll_position - 1;
        }
    }

    /// Scrolls down one line, if possible.
    pub fn scroll_down(&mut self)
        ensures
            *final(self) == (HelpSystem {
                scroll_position: if old(self).scroll_position < max_scroll(
                    old(self).total_lines as int,
                ) {
                    (old(self).scroll_position + 1) as usize
                } else {
                    old(self).scroll_position
                },
                ..*old(self)
            }),
    {
        let max_scroll = self.max_scroll_position();
        if self.scroll_position < max_scroll {
            self.scroll_position = self.scroll_position + 1;
        }
    }

    /// Scrolls up one page, stopping at the top.
    pub fn page_up(&mut self)
        ensures
            *final(self) == (HelpSystem {
                scroll_position: if old(self).scroll_position > HELP_VISIBLE_LINES {
                    (old(self).scroll_position - HELP_VISIBLE_LINES) as usize
                } else {
                    0
                },
                ..*old(self)
            }),
    {
        self.scroll_position = if self.scroll_position > HELP_VISIBLE_LINES {
            self.scroll_position - HELP_VISIBLE_LINES
        } else {
            0
        };
    }

    /// Scrolls down one page, stopping at the furthest position.
    pub fn page_down(&mut self)
        requires
            old(self).scroll_position + HELP_VISIBLE_LINES <= usize::MAX,
        ensures
            *final(self) == (HelpSystem {
                scroll_position: if old(self).scroll_position + HELP_VISIBLE_LINES < max_scroll(
                    old(self).total_lines as int,
                ) {
                    (old(self).scroll_position + HELP_VISIBLE_LINES) as usize
                } else {
                    max_scroll(old(self).total_lines as int) as usize
                },
                ..*old(self)
            }),
    {
        let max_scroll = self.max_scroll_position();
        let next = self.scroll_position + HELP_VISIBLE_LINES;
        self.scroll_position = if next < max_scroll { next } else { max_scroll };
    }

    /// Scrolls to the top.
    pub fn scroll_to_top(&mut self)
        ensures
            *final(self) == (HelpSystem { scroll_position: 0, ..*old(self) }),
    {
        self.scroll_position = 0;
    }

    /// Scrolls to the furthest position.
    pub fn scroll_to_bottom(&mut self)
        ensures
            *final(self) == (HelpSystem {
                scroll_position: max_scroll(old(self).total_lines as int) as usize,
                ..*old(self)
            }),
    {
        self.scroll_position = self.max_scroll_position();
    }

    /// The furthest scroll position: the line count less one page, or 0.
    pub fn max_scroll_position(&self) -> (m: usize)
        ensures
            m == max_scroll(self.total_lines as int),
    {
        if self.total_lines > HELP_VISIBLE_LINES {
            self.total_lines - HELP_VISIBLE_LINES
        } else {
            0
        }
    }

    /// The lines shown: at most one page from the scroll position on.
    pub fn visible_lines(&self) -> (shown: &[HelpTextLine])
        ensures
            ({
                let len = self.lines@.len() as int;
                let start = if self.scroll_position < len { self.scroll_position as int } else { len };
                let end = if start + HELP_VISIBLE_LINES < len {
                    start + HELP_VISIBLE_LINES
                } else {
                    len
                };
                shown@ == self.lines@.subrange(start, end)
            }),
            shown@.len() <= HELP_VISIBLE_LINES,
    {
        let len = self.lines.len();
        let start = if self.scroll_position < len { self.scroll_position } else { len };
        let end = if len - start > HELP_VISIBLE_LINES { start + HELP_VISIBLE_LINES } else { len };
        let all = self.lines.as_slice();
        &all[start..end]
    }

    /// Whether the help can scroll up.
    pub fn can_scroll_up(&self) -> (b: bool)
        ensures
            b == (self.scroll_position > 0),
    {
        self.scroll_position > 0
    }

    /// Whether the help can scroll down.
    pub fn can_scroll_down(&self) -> (b: bool)
        ensures
            b == (self.scroll_position < max_scroll(self.total_lines as int)),
    {
        self.scroll_position < self.max_scroll_position()
    }

    /// Appends a line.
    pub fn add_line(&mut self, line: HelpTextLine)
        requires
            old(self).lines@.len() < usize::MAX,
        ensures
            final(self).lines@ == old(self).lines@.push(line),
            final(self).total_lines == final(self).lines@.len(),
            final(self).visible == old(self).visible,
            final(self).scroll_position == old(self).scroll_position,
            old(self).wf() ==> final(self).wf(),
    {
        self.lines.push(line);
        self.total_lines = self.lines.len();
    }

    /// Removes every line and scrolls to the top.
    pub fn clear(&mut self)
        ensures
            final(self).lines@.len() == 0,
            final(self).total_lines == 0,
            final(self).scroll_position == 0,
            final(self).visible == old(self).visible,
            final(self).wf(),
    {
        self.lines.clear();
        self.total_lines = 0;
        self.scroll_position = 0;
    }

    /// Restores the default help text and scrolls to the top.
    pub fn reload_default(&mut self)
        ensures
            final(self).has_default_lines(),
            final(self).total_lines == help_text_spec().len(),
            final(self).scroll_position == 0,
            final(self).visible == old(self).visible,
            final(self).wf(),
    {
        self.lines = default_lines();
        self.total_lines = self.lines.len();
        self.scroll_position = 0;
    }
}

impl Default for HelpSystem {
    fn default() -> (h: Self)
        ensures
            h.wf(),
            !h.visible,
            h.scroll_position == 0,
            h.has_default_lines(),
    {
        Self::new()
    }
}

/// Every scroll operation keeps the position within range.
pub proof fn lemma_scrolling_stays_in_range(position: int, total: int)
    requires
        0 <= position <= max_scroll(total),
        total >= 0,
    ensures
        0 <= (if position > 0 { position - 1 } else { 0 }) <= max_scroll(total),
        0 <= (if position < max_scroll(total) { position + 1 } else { position }) <= max_scroll(
            total,
        ),
        0 <= (if position > HELP_VISIBLE_LINES { position - HELP_VISIBLE_LINES } else { 0 })
            <= max_scroll(total),
        0 <= (if position + HELP_VISIBLE_LINES < max_scroll(total) {
            position + HELP_VISIBLE_LINES
        } else {
            max_scroll(total)
        }) <= max_scroll(total),
{
}

/// Scrolling down one line and back up returns to the same place when the
/// help can scroll down; scrolling up and back down does when it can
/// scroll up.
pub proof fn lemma_scroll_down_up_inverse(position: int, total: int)
    requires
        0 <= position <= max_scroll(total),
    ensures
        position < max_scroll(total) ==> (position + 1) - 1 == position,
        position > 0 ==> (if position - 1 < max_scroll(total) {
            position - 1 + 1
        } else {
            position - 1
        }) == position,
{
}

/// Resets the help: hidden, no lines skipped, a fresh help screen.
pub fn init_help(help_flag: &mut bool, skip_lines: &mut usize, help_system: &mut Option<HelpSystem>)
    ensures
        !*final(help_flag),
        *final(skip_lines) == 0,
        *final(help_system) matches Some(h) && {
            &&& h.wf()
            &&& !h.visible
            &&& h.scroll_position == 0
            &&& h.has_default_lines()
        },
{
    *help_flag = false;
    *skip_lines = 0;
    *help_system = Some(HelpSystem::new());
}

/// Shows the help from the top.
pub fn display_help(help_flag: &mut bool, skip_lines: &mut usize, help_system: &mut Option<HelpSystem>)
    ensures
        *final(help_flag),
        *final(skip_lines) == 0,
        *final(help_system) == (match *old(help_system) {
            Some(h) => Some(HelpSystem { visible: true, scroll_position: 0, ..h }),
            None => None,
        }),
{
    *help_flag = true;
    *skip_lines = 0;
    match help_system {
        Some(help) => help.display(),
        None => {},
    }
}

/// Scrolls the help up one line: one line fewer skipped, down to none.
pub fn help_scroll_up(skip_lines: &mut usize, help_system: &mut Option<HelpSystem>)
    ensures
        *final(skip_lines) == (if *old(skip_lines) > 0 {
            (*old(skip_lines) - 1) as usize
        } else {
            0
        }),
        *final(help_system) == (match *old(help_system) {
            Some(h) => Some(HelpSystem {
                scroll_position: if h.scroll_position > 0 {
                    (h.scroll_position - 1) as usize
                } else {
                    0
                },
                ..h
            }),
            None => None,
        }),
{
    if *skip_lines > 0 {
        *skip_lines = *skip_lines - 1;
    }
    match help_system {
        Some(help) => help.scroll_up(),
        None => {},
    }
}

/// Scrolls the help down one line: one line more skipped, up to the
/// furthest scroll position; without a help screen nothing is skipped.
pub fn help_scroll_down(skip_lines: &mut usize, help_system: &mut Option<HelpSystem>)
    ensures
        match *old(help_system) {
            Some(h) => {
                &&& *final(skip_lines) == (if *old(skip_lines) < max_scroll(h.total_lines as int) {
                    (*old(skip_lines) + 1) as usize
                } else {
                    *old(skip_lines)
                })
                &&& *final(help_system) == Some(HelpSystem {
                    scroll_position: if h.scroll_position < max_scroll(h.total_lines as int) {
                        (h.scroll_position + 1) as usize
                    } else {
                        h.scroll_position
                    },
                    ..h
                })
            },
            None => *final(skip_lines) == *old(skip_lines) && *final(help_system) == *old(help_system),
        },
{
    match help_system {
        Some(help) => {
            if *skip_lines < help.max_scroll_position() {
                *skip_lines = *skip_lines + 1;
            }
            help.scroll_down();
        },
        None => {},
    }
}

} // verus!
