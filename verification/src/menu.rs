//! What the entries of the tray menu do.

use crate::state::color_palette;
use crate::state::Layout;
use crate::state::MonitorItem;
use crate::state::WindowPosition;
use crate::text::chars_of;
use crate::text::same_text;
use vstd::prelude::*;

verus! {

/// What a menu entry asks for.
#[derive(Clone, Copy, Debug, PartialEq, Eq, Structural)]
pub enum MenuAction {
    /// Switch the start at login on or off.
    Autostart,
    /// Move the window to a corner.
    Position(WindowPosition),
    /// Lay the figures out in a direction.
    Layout(Layout),
    /// Take the text colour at this place of the list of colours.
    Color(usize),
    /// Show or hide a figure.
    Toggle(MonitorItem),
    /// End the application.
    Quit,
}

/// The action of the menu entry with the identifier `id`, if there is such an
/// entry.
pub open spec fn action_of_id(id: Seq<char>) -> Option<MenuAction> {
    if id == "autostart"@ {
        Some(MenuAction::Autostart)
    } else if id == "pos_top_left"@ {
        Some(MenuAction::Position(WindowPosition::TopLeft))
    } else if id == "pos_bottom_left"@ {
        Some(MenuAction::Position(WindowPosition::BottomLeft))
    } else if id == "pos_top_right"@ {
        Some(MenuAction::Position(WindowPosition::TopRight))
    } else if id == "pos_bottom_right"@ {
        Some(MenuAction::Position(WindowPosition::BottomRight))
    } else if id == "layout_horizontal"@ {
        Some(MenuAction::Layout(Layout::Horizontal))
    } else if id == "layout_vertical"@ {
        Some(MenuAction::Layout(Layout::Vertical))
    } else if id == "color_white"@ {
        Some(MenuAction::Color(0))
    } else if id == "color_black"@ {
        Some(MenuAction::Color(1))
    } else if id == "color_cyan"@ {
        Some(MenuAction::Color(2))
    } else if id == "color_green"@ {
        Some(MenuAction::Color(3))
    } else if id == "color_orange"@ {
        Some(MenuAction::Color(4))
    } else if id == "color_pink"@ {
        Some(MenuAction::Color(5))
    } else if id == "color_yellow"@ {
        Some(MenuAction::Color(6))
    } else if id == "monitor_cpu"@ {
        Some(MenuAction::Toggle(MonitorItem::Cpu))
    } else if id == "monitor_mem"@ {
        Some(MenuAction::Toggle(MonitorItem::Mem))
    } else if id == "monitor_net"@ {
        Some(MenuAction::Toggle(MonitorItem::Net))
    } else if id == "quit"@ {
        Some(MenuAction::Quit)
    } else {
        None
    }
}

/// The identifier of the menu entry that asks for `action`. The entry of a
/// colour has the identifier that the list of colours gives it.
pub open spec fn id_of_action(action: MenuAction) -> Seq<char> {
    match action {
        MenuAction::Autostart => "autostart"@,
        MenuAction::Position(WindowPosition::TopLeft) => "pos_top_left"@,
        MenuAction::Position(WindowPosition::BottomLeft) => "pos_bottom_left"@,
        MenuAction::Position(WindowPosition::TopRight) => "pos_top_right"@,
        MenuAction::Position(WindowPosition::BottomRight) => "pos_bottom_right"@,
        MenuAction::Layout(Layout::Horizontal) => "layout_horizontal"@,
        MenuAction::Layout(Layout::Vertical) => "layout_vertical"@,
        MenuAction::Color(place) => if place < color_palette().len() {
            color_palette()[place as int].id@
        } else {
            Seq::empty()
        },
        MenuAction::Toggle(MonitorItem::Cpu) => "monitor_cpu"@,
        MenuAction::Toggle(MonitorItem::Mem) => "monitor_mem"@,
        MenuAction::Toggle(MonitorItem::Net) => "monitor_net"@,
        MenuAction::Quit => "quit"@,
    }
}

/// The action of a colour entry names a colour of the list.
pub proof fn lemma_color_in_list(id: Seq<char>)
    ensures
        action_of_id(id) matches Some(MenuAction::Color(place)) ==> place < color_palette().len()
            && color_palette()[place as int].id@ == id,
{
}

/// The length of a text and two of its characters, which tell the
/// identifiers of the menu entries apart.
spec fn mark(id: Seq<char>) -> (nat, char, char) {
    (id.len(), id[6], id[8])
}

/// Every menu entry has an identifier of its own: the identifier of an action
/// is read back as that action.
pub proof fn lemma_action_round_trip(action: MenuAction)
    requires
        action matches MenuAction::Color(place) ==> place < color_palette().len(),
    ensures
        action_of_id(id_of_action(action)) == Some(action),
{
    reveal_strlit("autostart");
    reveal_strlit("pos_top_left");
    reveal_strlit("pos_bottom_left");
    reveal_strlit("pos_top_right");
    reveal_strlit("pos_bottom_right");
    reveal_strlit("layout_horizontal");
    reveal_strlit("layout_vertical");
    reveal_strlit("color_white");
    reveal_strlit("color_black");
    reveal_strlit("color_cyan");
    reveal_strlit("color_green");
    reveal_strlit("color_orange");
    reveal_strlit("color_pink");
    reveal_strlit("color_yellow");
    reveal_strlit("monitor_cpu");
    reveal_strlit("monitor_mem");
    reveal_strlit("monitor_net");
    reveal_strlit("quit");
    assert(mark("pos_top_left"@).0 == 12 && mark("pos_top_left"@).1 == 'p' && mark("pos_top_left"@).2 == 'l');
    assert(mark("pos_bottom_left"@).0 == 15 && mark("pos_bottom_left"@).1 == 't' && mark("pos_bottom_left"@).2 == 'o');
    assert(mark("pos_top_right"@).0 == 13 && mark("pos_top_right"@).1 == 'p' && mark("pos_top_right"@).2 == 'r');
    assert(mark("pos_bottom_right"@).0 == 16 && mark("pos_bottom_right"@).1 == 't' && mark("pos_bottom_right"@).2 == 'o');
    assert(mark("layout_horizontal"@).0 == 17 && mark("layout_horizontal"@).1 == '_' && mark("layout_horizontal"@).2 == 'o');
    assert(mark("layout_vertical"@).0 == 15 && mark("layout_vertical"@).1 == '_' && mark("layout_vertical"@).2 == 'e');
    assert(mark("color_white"@).0 == 11 && mark("color_white"@).1 == 'w' && mark("color_white"@).2 == 'i');
    assert(mark("color_black"@).0 == 11 && mark("color_black"@).1 == 'b' && mark("color_black"@).2 == 'a');
    assert(mark("color_cyan"@).0 == 10 && mark("color_cyan"@).1 == 'c' && mark("color_cyan"@).2 == 'a');
    assert(mark("color_green"@).0 == 11 && mark("color_green"@).1 == 'g' && mark("color_green"@).2 == 'e');
    assert(mark("color_orange"@).0 == 12 && mark("color_orange"@).1 == 'o' && mark("color_orange"@).2 == 'a');
    assert(mark("color_pink"@).0 == 10 && mark("color_pink"@).1 == 'p' && mark("color_pink"@).2 == 'n');
    assert(mark("color_yellow"@).0 == 12 && mark("color_yellow"@).1 == 'y' && mark("color_yellow"@).2 == 'l');
    assert(mark("monitor_cpu"@).0 == 11 && mark("monitor_cpu"@).1 == 'r' && mark("monitor_cpu"@).2 == 'c');
    assert(mark("monitor_mem"@).0 == 11 && mark("monitor_mem"@).1 == 'r' && mark("monitor_mem"@).2 == 'm');
    assert(mark("monitor_net"@).0 == 11 && mark("monitor_net"@).1 == 'r' && mark("monitor_net"@).2 == 'n');
    assert(mark("quit"@).0 == 4);
}

/// The action of `id`; `None` where no menu entry has that identifier.
pub fn menu_action(id: &str) -> (action: Option<MenuAction>)
    ensures
        action == action_of_id(id@),
{
    if same_text(id, "autostart") {
        Some(MenuAction::Autostart)
    } else if same_text(id, "pos_top_left") {
        Some(MenuAction::Position(WindowPosition::TopLeft))
    } else if same_text(id, "pos_bottom_left") {
        Some(MenuAction::Position(WindowPosition::BottomLeft))
    } else if same_text(id, "pos_top_right") {
        Some(MenuAction::Position(WindowPosition::TopRight))
    } else if same_text(id, "pos_bottom_right") {
        Some(MenuAction::Position(WindowPosition::BottomRight))
    } else if same_text(id, "layout_horizontal") {
        Some(MenuAction::Layout(Layout::Horizontal))
    } else if same_text(id, "layout_vertical") {
        Some(MenuAction::Layout(Layout::Vertical))
    } else if same_text(id, "color_white") {
        Some(MenuAction::Color(0))
    } else if same_text(id, "color_black") {
        Some(MenuAction::Color(1))
    } else if same_text(id, "color_cyan") {
        Some(MenuAction::Color(2))
    } else if same_text(id, "color_green") {
        Some(MenuAction::Color(3))
    } else if same_text(id, "color_orange") {
        Some(MenuAction::Color(4))
    } else if same_text(id, "color_pink") {
        Some(MenuAction::Color(5))
    } else if same_text(id, "color_yellow") {
        Some(MenuAction::Color(6))
    } else if same_text(id, "monitor_cpu") {
        Some(MenuAction::Toggle(MonitorItem::Cpu))
    } else if same_text(id, "monitor_mem") {
        Some(MenuAction::Toggle(MonitorItem::Mem))
    } else if same_text(id, "monitor_net") {
        Some(MenuAction::Toggle(MonitorItem::Net))
    } else if same_text(id, "quit") {
        Some(MenuAction::Quit)
    } else {
        None
    }
}

/// The code of a character with the capital letters `A` to `Z` taken for
/// their small letters.
pub open spec fn fold_ascii(c: char) -> u32 {
    if 65 <= c as u32 <= 90 {
        (c as u32 + 32) as u32
    } else {
        c as u32
    }
}

/// Two texts are the same but for the case of the letters `a` to `z`.
pub open spec fn same_ignoring_ascii_case(a: Seq<char>, b: Seq<char>) -> bool {
    &&& a.len() == b.len()
    &&& forall|i: int| 0 <= i < a.len() ==> fold_ascii(#[trigger] a[i]) == fold_ascii(b[i])
}

/// The code of `c` with capital letters taken for small ones.
fn folded(c: char) -> (code: u32)
    ensures
        code == fold_ascii(c),
{
    let code: u32 = c as u32;
    if 65 <= code && code <= 90 {
        code + 32
    } else {
        code
    }
}

/// Whether the colour `chosen` is the colour `value` of a menu entry: the
/// two are the same but for the case of their letters.
pub fn is_chosen_color(value: &str, chosen: &str) -> (same: bool)
    ensures
        same == same_ignoring_ascii_case(value@, chosen@),
{
    let left = chars_of(value);
    let right = chars_of(chosen);
    if left.len() != right.len() {
        return false;
    }
    let mut i: usize = 0;
    while i < left.len()
        invariant
            i <= left.len(),
            left.len() == right.len(),
            left@ == value@,
            right@ == chosen@,
            forall|k: int| 0 <= k < i ==> fold_ascii(#[trigger] left@[k]) == fold_ascii(right@[k]),
        decreases left.len() - i,
    {
        if folded(left[i]) != folded(right[i]) {
            return false;
        }
        i += 1;
    }
    true
}

} // verus!
