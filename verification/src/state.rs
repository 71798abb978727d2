//! What the user has chosen for the display of the samples, and the texts
//! under which the choices are stored.

use crate::text::chars_of;
use crate::text::decimal;
use crate::text::lemma_decimal_reads_back;
use crate::text::occurs_at;
use crate::text::parse_unsigned;
use crate::text::push_decimal;
use crate::text::same_text;
use crate::text::stands_at;
use crate::text::unsigned_of_text;
use vstd::prelude::*;
use vstd::string::StrSliceExecFns;
use vstd::string::StringExecFns;

verus! {

/// The corner of the screen in which the window sits.
#[derive(Clone, Copy, Debug, PartialEq, Eq, Structural)]
pub enum WindowPosition {
    TopLeft,
    BottomLeft,
    TopRight,
    BottomRight,
}

/// The direction in which the window lays out its figures.
#[derive(Clone, Copy, Debug, PartialEq, Eq, Structural)]
pub enum Layout {
    Horizontal,
    Vertical,
}

/// A figure that the window can show or hide.
#[derive(Clone, Copy, Debug, PartialEq, Eq, Structural)]
pub enum MonitorItem {
    Cpu,
    Mem,
    Net,
}

/// A screen, by its place in the list of screens and by its name where it has
/// one.
#[derive(Clone, Debug, PartialEq, Eq)]
pub struct MonitorTarget {
    pub index: usize,
    pub name: Option<String>,
}

/// A screen as a plain value: its place in the list, and the characters of its
/// name.
pub struct MonitorTargetView {
    pub index: usize,
    pub name: Option<Seq<char>>,
}

impl View for MonitorTarget {
    type V = MonitorTargetView;

    open spec fn view(&self) -> MonitorTargetView {
        MonitorTargetView {
            index: self.index,
            name: match self.name {
                Some(name) => Some(name@),
                None => None,
            },
        }
    }
}

/// All that the user has chosen.
#[derive(Clone, Debug)]
pub struct UiState {
    pub position: WindowPosition,
    pub layout: Layout,
    pub monitor_target: Option<MonitorTarget>,
    pub text_color: String,
    pub show_cpu: bool,
    pub show_mem: bool,
    pub show_net: bool,
}

/// Which figures the window shows.
#[derive(Clone, Copy, Debug, PartialEq, Eq, Structural)]
pub struct MonitorVisibility {
    pub cpu: bool,
    pub mem: bool,
    pub net: bool,
}

/// A text colour that the user can choose.
#[derive(Clone, Copy, Debug)]
pub struct ColorOption {
    /// Identifier of the menu entry.
    pub id: &'static str,
    /// Text of the menu entry.
    pub label: &'static str,
    /// The colour, as `#rrggbb`.
    pub value: &'static str,
}

/// Name of the file that holds the settings.
pub const SETTINGS_PATH: &'static str = "ui-settings.json";

/// Key of the window position in the settings.
pub const KEY_POSITION: &'static str = "position";

/// Key of the layout in the settings.
pub const KEY_LAYOUT: &'static str = "layout";

/// Key of the screen in the settings.
pub const KEY_MONITOR_TARGET: &'static str = "monitor_target";

/// Key of the text colour in the settings.
pub const KEY_TEXT_COLOR: &'static str = "text_color";

/// Key of the visibility of the processor figure in the settings.
pub const KEY_MONITOR_CPU: &'static str = "monitor_cpu";

/// Key of the visibility of the memory figure in the settings.
pub const KEY_MONITOR_MEM: &'static str = "monitor_mem";

/// Key of the visibility of the network figure in the settings.
pub const KEY_MONITOR_NET: &'static str = "monitor_net";

/// The text colours that the user can choose from, white first.
pub open spec fn color_palette() -> Seq<ColorOption> {
    seq![
        ColorOption { id: "color_white", label: "白色", value: "#ffffff" },
        ColorOption { id: "color_black", label: "黑色", value: "#000000" },
        ColorOption { id: "color_cyan", label: "青色", value: "#8fe9ff" },
        ColorOption { id: "color_green", label: "绿色", value: "#7cff6b" },
        ColorOption { id: "color_orange", label: "橙色", value: "#ffb454" },
        ColorOption { id: "color_pink", label: "粉色", value: "#ff6fae" },
        ColorOption { id: "color_yellow", label: "黄色", value: "#ffd56a" },
    ]
}

/// The text colours that the user can choose from.
pub fn color_options() -> (options: [ColorOption; 7])
    ensures
        options@ == color_palette(),
{
    let options = [
        ColorOption { id: "color_white", label: "白色", value: "#ffffff" },
        ColorOption { id: "color_black", label: "黑色", value: "#000000" },
        ColorOption { id: "color_cyan", label: "青色", value: "#8fe9ff" },
        ColorOption { id: "color_green", label: "绿色", value: "#7cff6b" },
        ColorOption { id: "color_orange", label: "橙色", value: "#ffb454" },
        ColorOption { id: "color_pink", label: "粉色", value: "#ff6fae" },
        ColorOption { id: "color_yellow", label: "黄色", value: "#ffd56a" },
    ];
    options
}

/// The text under which a layout is stored.
pub open spec fn layout_text(layout: Layout) -> Seq<char> {
    match layout {
        Layout::Horizontal => "horizontal"@,
        Layout::Vertical => "vertical"@,
    }
}

/// The layout that a text stands for, if it stands for one.
pub open spec fn layout_of_text(text: Seq<char>) -> Option<Layout> {
    if text == "horizontal"@ {
        Some(Layout::Horizontal)
    } else if text == "vertical"@ {
        Some(Layout::Vertical)
    } else {
        None
    }
}

/// The text under which a window position is stored.
pub open spec fn position_text(position: WindowPosition) -> Seq<char> {
    match position {
        WindowPosition::TopLeft => "top-left"@,
        WindowPosition::BottomLeft => "bottom-left"@,
        WindowPosition::TopRight => "top-right"@,
        WindowPosition::BottomRight => "bottom-right"@,
    }
}

/// The window position that a text stands for, if it stands for one.
pub open spec fn position_of_text(text: Seq<char>) -> Option<WindowPosition> {
    if text == "top-left"@ {
        Some(WindowPosition::TopLeft)
    } else if text == "bottom-left"@ {
        Some(WindowPosition::BottomLeft)
    } else if text == "top-right"@ {
        Some(WindowPosition::TopRight)
    } else if text == "bottom-right"@ {
        Some(WindowPosition::BottomRight)
    } else {
        None
    }
}

/// A layout that is stored and read back is the same layout, and only the
/// text of a layout reads as that layout.
pub proof fn lemma_layout_round_trip(layout: Layout, text: Seq<char>)
    ensures
        layout_of_text(layout_text(layout)) == Some(layout),
        layout_of_text(text) == Some(layout) <==> text == layout_text(layout),
{
    reveal_strlit("horizontal");
    reveal_strlit("vertical");
    assert("horizontal"@.len() != "vertical"@.len());
}

/// A window position that is stored and read back is the same position, and
/// only the text of a position reads as that position.
pub proof fn lemma_position_round_trip(position: WindowPosition, text: Seq<char>)
    ensures
        position_of_text(position_text(position)) == Some(position),
        position_of_text(text) == Some(position) <==> text == position_text(position),
{
    reveal_strlit("top-left");
    reveal_strlit("bottom-left");
    reveal_strlit("top-right");
    reveal_strlit("bottom-right");
    assert("bottom-left"@.len() == 11);
    assert("top-right"@.len() == 9);
    assert("bottom-right"@.len() == 12);
}

/// The text under which `layout` is stored.
pub fn layout_to_str(layout: Layout) -> (text: &'static str)
    ensures
        text@ == layout_text(layout),
{
    match layout {
        Layout::Horizontal => "horizontal",
        Layout::Vertical => "vertical",
    }
}

/// The layout that `value` stands for; `None` where it stands for none.
pub fn layout_from_str(value: &str) -> (layout: Option<Layout>)
    ensures
        layout == layout_of_text(value@),
{
    if same_text(value, "horizontal") {
        Some(Layout::Horizontal)
    } else if same_text(value, "vertical") {
        Some(Layout::Vertical)
    } else {
        None
    }
}

/// The text under which `position` is stored.
pub fn position_to_str(position: WindowPosition) -> (text: &'static str)
    ensures
        text@ == position_text(position),
{
    match position {
        WindowPosition::TopLeft => "top-left",
        WindowPosition::BottomLeft => "bottom-left",
        WindowPosition::TopRight => "top-right",
        WindowPosition::BottomRight => "bottom-right",
    }
}

/// The window position that `value` stands for; `None` where it stands for
/// none.
pub fn position_from_str(value: &str) -> (position: Option<WindowPosition>)
    ensures
        position == position_of_text(value@),
{
    if same_text(value, "top-left") {
        Some(WindowPosition::TopLeft)
    } else if same_text(value, "bottom-left") {
        Some(WindowPosition::BottomLeft)
    } else if same_text(value, "top-right") {
        Some(WindowPosition::TopRight)
    } else if same_text(value, "bottom-right") {
        Some(WindowPosition::BottomRight)
    } else {
        None
    }
}

impl Layout {
    /// The other layout.
    pub open spec fn spec_toggled(self) -> Layout {
        match self {
            Layout::Horizontal => Layout::Vertical,
            Layout::Vertical => Layout::Horizontal,
        }
    }

    /// The other layout.
    pub fn toggled(self) -> (other: Layout)
        ensures
            other == self.spec_toggled(),
            other != self,
    {
        match self {
            Layout::Horizontal => Layout::Vertical,
            Layout::Vertical => Layout::Horizontal,
        }
    }

    /// Width and height of the window in this layout, in logical pixels.
    pub fn window_size(self) -> (size: (u32, u32))
        ensures
            size == match self {
                Layout::Horizontal => (190u32, 40u32),
                Layout::Vertical => (75u32, 100u32),
            },
    {
        match self {
            Layout::Horizontal => (190, 40),
            Layout::Vertical => (75, 100),
        }
    }
}

impl MonitorVisibility {
    /// At least one figure is shown.
    pub open spec fn any(self) -> bool {
        self.cpu || self.mem || self.net
    }

    /// The visibility with the figure `item` flipped.
    pub open spec fn flipped(self, item: MonitorItem) -> MonitorVisibility {
        match item {
            MonitorItem::Cpu => MonitorVisibility { cpu: !self.cpu, ..self },
            MonitorItem::Mem => MonitorVisibility { mem: !self.mem, ..self },
            MonitorItem::Net => MonitorVisibility { net: !self.net, ..self },
        }
    }
}

impl UiState {
    /// Which figures the state shows.
    pub open spec fn visibility(self) -> MonitorVisibility {
        MonitorVisibility { cpu: self.show_cpu, mem: self.show_mem, net: self.show_net }
    }

    /// Shows or hides the figure `item`, whichever it was not, unless that
    /// would leave no figure shown. Returns the new visibility where the
    /// state has changed, and `None` where it was left as it was.
    pub fn toggle_item(&mut self, item: MonitorItem) -> (changed: Option<MonitorVisibility>)
        ensures
            old(self).visibility().flipped(item).any() ==> {
                &&& changed == Some(old(self).visibility().flipped(item))
                &&& final(self).visibility() == old(self).visibility().flipped(item)
            },
            !old(self).visibility().flipped(item).any() ==> {
                &&& changed is None
                &&& final(self).visibility() == old(self).visibility()
            },
            final(self).position == old(self).position,
            final(self).layout == old(self).layout,
            final(self).monitor_target == old(self).monitor_target,
            final(self).text_color == old(self).text_color,
    {
        let mut cpu = self.show_cpu;
        let mut mem = self.show_mem;
        let mut net = self.show_net;
        match item {
            MonitorItem::Cpu => {
                cpu = !cpu;
            },
            MonitorItem::Mem => {
                mem = !mem;
            },
            MonitorItem::Net => {
                net = !net;
            },
        }
        if !(cpu || mem || net) {
            return None;
        }
        self.show_cpu = cpu;
        self.show_mem = mem;
        self.show_net = net;
        Some(MonitorVisibility { cpu, mem, net })
    }

    /// Shows the processor figure where no figure is shown, so that the
    /// window is never empty.
    pub fn show_something(&mut self)
        ensures
            final(self).visibility().any(),
            old(self).visibility().any() ==> final(self).visibility() == old(self).visibility(),
            !old(self).visibility().any() ==> final(self).visibility() == (MonitorVisibility {
                cpu: true,
                mem: false,
                net: false,
            }),
            final(self).position == old(self).position,
            final(self).layout == old(self).layout,
            final(self).monitor_target == old(self).monitor_target,
            final(self).text_color == old(self).text_color,
    {
        if !(self.show_cpu || self.show_mem || self.show_net) {
            self.show_cpu = true;
        }
    }
}

impl Default for UiState {
    fn default() -> (state: Self)
        ensures
            state.position == WindowPosition::TopLeft,
            state.layout == Layout::Vertical,
            state.monitor_target is None,
            state.text_color@ == "#ffffff"@,
            state.show_cpu,
            state.show_mem,
            state.show_net,
    {
        UiState {
            position: WindowPosition::TopLeft,
            layout: Layout::Vertical,
            monitor_target: None,
            text_color: "#ffffff".to_owned(),
            show_cpu: true,
            show_mem: true,
            show_net: true,
        }
    }
}

/// Which figures `state` shows.
pub fn visibility_from_state(state: &UiState) -> (visibility: MonitorVisibility)
    ensures
        visibility == state.visibility(),
{
    MonitorVisibility { cpu: state.show_cpu, mem: state.show_mem, net: state.show_net }
}

/// The text under which a screen is stored: `name:`, the name, `|index:` and
/// the place in decimal digits; only `index:` and the place for a screen
/// without a name.
pub open spec fn target_text(target: MonitorTargetView) -> Seq<char> {
    match target.name {
        Some(name) => "name:"@ + name + "|index:"@ + decimal(target.index as nat),
        None => "index:"@ + decimal(target.index as nat),
    }
}

/// The name and the place that were read from the parts of a text so far.
pub struct TargetParts {
    pub name: Option<Seq<char>>,
    pub index: Option<usize>,
}

/// The position of the first `|` in a text, and the length of the text where
/// it holds none.
pub open spec fn bar_position(s: Seq<char>) -> int
    decreases s.len(),
{
    if s.len() == 0 {
        0
    } else if s[0] == '|' {
        0
    } else {
        1 + bar_position(s.drop_first())
    }
}

/// What one part of a text adds to what was read before it. A part that
/// starts with `name:` gives the name: the rest of the part. A part that
/// starts with `index:` gives the place: the number that the rest of the
/// part stands for, and no place where it stands for none. Any other part
/// gives nothing.
pub open spec fn apply_part(parts: TargetParts, part: Seq<char>) -> TargetParts {
    if occurs_at(part, "name:"@, 0) {
        TargetParts { name: Some(part.skip("name:"@.len() as int)), index: parts.index }
    } else if occurs_at(part, "index:"@, 0) {
        TargetParts {
            name: parts.name,
            index: unsigned_of_text(part.skip("index:"@.len() as int)),
        }
    } else {
        parts
    }
}

/// What the parts of a text give, one after the other. The parts are what
/// stands between one `|` and the next.
pub open spec fn scan_parts(s: Seq<char>, parts: TargetParts) -> TargetParts
    decreases s.len(),
{
    let bar = bar_position(s);
    if 0 <= bar < s.len() {
        scan_parts(s.skip(bar + 1), apply_part(parts, s.take(bar)))
    } else {
        apply_part(parts, s)
    }
}

/// The screen that a text stands for: the place and the name that its parts
/// give, and no screen where they give no place.
pub open spec fn target_of_text(s: Seq<char>) -> Option<MonitorTargetView> {
    let parts = scan_parts(s, TargetParts { name: None, index: None });
    match parts.index {
        Some(index) => Some(MonitorTargetView { index, name: parts.name }),
        None => None,
    }
}

/// Where `bar` is the first position of a text that holds `|`, or the length
/// of a text that holds none, it is the position of the first `|`.
pub proof fn lemma_bar_position(s: Seq<char>, bar: int)
    requires
        0 <= bar <= s.len(),
        forall|j: int| 0 <= j < bar ==> s[j] != '|',
        bar < s.len() ==> s[bar] == '|',
    ensures
        bar_position(s) == bar,
    decreases s.len(),
{
    if s.len() > 0 && bar > 0 {
        let rest = s.drop_first();
        lemma_bar_position(rest, bar - 1);
    }
}

/// The text `index:` and a number in decimal digits gives the place that the
/// number names, and leaves the name as it was.
proof fn lemma_index_part(parts: TargetParts, index: usize)
    ensures
        scan_parts("index:"@ + decimal(index as nat), parts) == (TargetParts {
            name: parts.name,
            index: Some(index),
        }),
{
    reveal_strlit("index:");
    reveal_strlit("name:");
    let digits = decimal(index as nat);
    let text = "index:"@ + digits;
    lemma_decimal_reads_back(index as nat);
    lemma_bar_position(text, text.len() as int);
    assert(!occurs_at(text, "name:"@, 0)) by {
        if occurs_at(text, "name:"@, 0) {
            assert(text[0int + 0int] == "name:"@[0int]);
        }
    }
    assert(text.skip(6) =~= digits);
}

/// A screen that is stored and read back is the same screen, where its name
/// holds no `|`.
pub proof fn lemma_target_round_trip(target: MonitorTargetView)
    requires
        target.name matches Some(name) ==> forall|i: int| 0 <= i < name.len() ==> name[i] != '|',
    ensures
        target_of_text(target_text(target)) == Some(target),
{
    let nothing = TargetParts { name: None, index: None };
    let tail = "index:"@ + decimal(target.index as nat);
    match target.name {
        None => {
            lemma_index_part(nothing, target.index);
        },
        Some(name) => {
            reveal_strlit("name:");
            reveal_strlit("|index:");
            reveal_strlit("index:");
            let text = target_text(target);
            let head = "name:"@ + name;
            let bar = head.len() as int;
            lemma_bar_position(text, bar);
            assert(text.take(bar) =~= head);
            assert(text.skip(bar + 1) =~= tail);
            assert(head.skip(5) =~= name);
            let named = TargetParts { name: Some(name), index: None };
            lemma_index_part(named, target.index);
        },
    }
}

/// The text under which `target` is stored.
pub fn monitor_target_to_str(target: &MonitorTarget) -> (text: String)
    ensures
        text@ == target_text(target@),
{
    match &target.name {
        Some(name) => {
            let mut text = "name:".to_owned();
            text.append(name.as_str());
            text.append("|index:");
            push_decimal(&mut text, target.index);
            text
        },
        None => {
            let mut text = "index:".to_owned();
            push_decimal(&mut text, target.index);
            text
        },
    }
}

/// The name and the place as plain values.
pub open spec fn parts_of(name: Option<String>, index: Option<usize>) -> TargetParts {
    TargetParts {
        name: match name {
            Some(name) => Some(name@),
            None => None,
        },
        index,
    }
}

/// Reads the part of `value` from character `start` to character `end`, and
/// returns the name and the place as they stand after it.
fn read_part(
    value: &str,
    chars: &Vec<char>,
    name_tag: &Vec<char>,
    index_tag: &Vec<char>,
    start: usize,
    end: usize,
    name: Option<String>,
    index: Option<usize>,
) -> (read: (Option<String>, Option<usize>))
    requires
        chars@ == value@,
        name_tag@ == "name:"@,
        index_tag@ == "index:"@,
        start <= end <= chars.len(),
    ensures
        parts_of(read.0, read.1) == apply_part(
            parts_of(name, index),
            chars@.subrange(start as int, end as int),
        ),
{
    let ghost part = chars@.subrange(start as int, end as int);
    let length: usize = end - start;
    if name_tag.len() <= length && stands_at(chars, name_tag, start) {
        let from: usize = start + name_tag.len();
        let rest = value.substring_char(from, end);
        proof {
            assert(part.skip("name:"@.len() as int) =~= value@.subrange(from as int, end as int));
        }
        return (Some(rest.to_owned()), index);
    }
    if index_tag.len() <= length && stands_at(chars, index_tag, start) {
        let from: usize = start + index_tag.len();
        let number = parse_unsigned(chars, from, end);
        proof {
            assert(part.skip("index:"@.len() as int) =~= chars@.subrange(from as int, end as int));
        }
        return (name, number);
    }
    (name, index)
}

/// The screen that `value` stands for; `None` where it stands for none.
///
/// The text is read part by part, the parts being what stands between one `|`
/// and the next. Where two parts give a name, or two a place, the later one
/// counts.
pub fn monitor_target_from_str(value: &str) -> (target: Option<MonitorTarget>)
    ensures
        match target {
            Some(target) => target_of_text(value@) == Some(target@),
            None => target_of_text(value@) is None,
        },
{
    let chars = chars_of(value);
    let name_tag = chars_of("name:");
    let index_tag = chars_of("index:");
    let n = chars.len();
    let ghost nothing = TargetParts { name: None, index: None };
    let mut name: Option<String> = None;
    let mut index: Option<usize> = None;
    let mut start: usize = 0;
    let mut i: usize = 0;
    assert(chars@.skip(0) == chars@);
    while i < n
        invariant
            start <= i <= n,
            n == chars.len(),
            chars@ == value@,
            name_tag@ == "name:"@,
            index_tag@ == "index:"@,
            forall|j: int| start <= j < i ==> chars@[j] != '|',
            scan_parts(chars@, nothing) == scan_parts(
                chars@.skip(start as int),
                parts_of(name, index),
            ),
        decreases n - i,
    {
        if chars[i] == '|' {
            let read = read_part(value, &chars, &name_tag, &index_tag, start, i, name, index);
            proof {
                let rest = chars@.skip(start as int);
                lemma_bar_position(rest, i - start);
                assert(rest.take(i - start) =~= chars@.subrange(start as int, i as int));
                assert(rest.skip(i - start + 1) =~= chars@.skip(i + 1));
            }
            name = read.0;
            index = read.1;
            start = i + 1;
        }
        i += 1;
    }
    let read = read_part(value, &chars, &name_tag, &index_tag, start, n, name, index);
    proof {
        let rest = chars@.skip(start as int);
        lemma_bar_position(rest, n - start);
    }
    match read.1 {
        Some(index) => Some(MonitorTarget { index, name: read.0 }),
        None => None,
    }
}

} // verus!
