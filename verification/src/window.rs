//! Where the window goes: the corner of a screen, the nearest corner, and the
//! screen that a window is on.
//!
//! Positions and sizes are in physical pixels. A position is that of the top
//! left corner of a window or of a screen.

use crate::state::MonitorTarget;
use crate::state::WindowPosition;
use vstd::prelude::*;

verus! {

/// A position on the desktop.
#[derive(Clone, Copy, Debug, PartialEq, Eq, Structural)]
pub struct Position {
    pub x: i32,
    pub y: i32,
}

/// The size of a window or of a screen.
#[derive(Clone, Copy, Debug, PartialEq, Eq, Structural)]
pub struct Size {
    pub width: u32,
    pub height: u32,
}

/// A screen: its name, where the system gives one, and the part of the
/// desktop that it shows.
#[derive(Clone, Debug, PartialEq, Eq)]
pub struct Screen {
    pub name: Option<String>,
    pub position: Position,
    pub size: Size,
}

/// The largest `x` at which a window of width `window` lies within a screen
/// of width `screen` that starts at `origin`. The same holds of `y` and the
/// heights.
pub open spec fn far_edge(origin: i32, screen: u32, window: u32) -> int {
    origin + screen - window
}

/// The sizes and the sums that lead to the far edge all fit in 32 bits with a
/// sign.
pub open spec fn edge_fits(origin: i32, screen: u32, window: u32) -> bool {
    &&& screen <= i32::MAX
    &&& window <= i32::MAX
    &&& origin + screen <= i32::MAX
    &&& i32::MIN <= far_edge(origin, screen, window)
}

/// The positions of a window in the corners of a screen can be worked out in
/// 32 bits.
pub open spec fn placement_fits(screen_position: Position, screen: Size, window: Size) -> bool {
    &&& edge_fits(screen_position.x, screen.width, window.width)
    &&& edge_fits(screen_position.y, screen.height, window.height)
}

/// The coordinate of a window along one axis: at the near edge of the screen,
/// or at the far edge where `far` is set. A window that is larger than the
/// screen sits at the near edge.
pub open spec fn along(origin: i32, screen: u32, window: u32, far: bool) -> int {
    if far && far_edge(origin, screen, window) >= origin {
        far_edge(origin, screen, window)
    } else {
        origin as int
    }
}

/// Whether a corner is on the right.
pub open spec fn is_right(corner: WindowPosition) -> bool {
    corner == WindowPosition::TopRight || corner == WindowPosition::BottomRight
}

/// Whether a corner is at the bottom.
pub open spec fn is_bottom(corner: WindowPosition) -> bool {
    corner == WindowPosition::BottomLeft || corner == WindowPosition::BottomRight
}

/// Where a window of size `window` goes to sit in the corner `corner` of a
/// screen.
pub open spec fn corner_position(
    screen_position: Position,
    screen: Size,
    window: Size,
    corner: WindowPosition,
) -> Position {
    Position {
        x: along(screen_position.x, screen.width, window.width, is_right(corner)) as i32,
        y: along(screen_position.y, screen.height, window.height, is_bottom(corner)) as i32,
    }
}

/// The square of the distance between two positions.
pub open spec fn distance_squared(a: Position, b: Position) -> int {
    (a.x - b.x) * (a.x - b.x) + (a.y - b.y) * (a.y - b.y)
}

/// The place of a corner in the order in which the corners are tried: top
/// left, top right, bottom left, bottom right.
pub open spec fn rank(corner: WindowPosition) -> int {
    match corner {
        WindowPosition::TopLeft => 0,
        WindowPosition::TopRight => 1,
        WindowPosition::BottomLeft => 2,
        WindowPosition::BottomRight => 3,
    }
}

/// `corner` is the corner nearest to `current`: no corner is nearer, and
/// every corner that is as near comes later in the order.
pub open spec fn is_nearest(
    screen_position: Position,
    screen: Size,
    window: Size,
    current: Position,
    corner: WindowPosition,
) -> bool {
    forall|other: WindowPosition|
        {
            let here = distance_squared(
                current,
                corner_position(screen_position, screen, window, corner),
            );
            let there = distance_squared(
                current,
                #[trigger] corner_position(screen_position, screen, window, other),
            );
            here <= there && (rank(other) < rank(corner) ==> here < there)
        }
}

/// The far edge, where it can be worked out in 32 bits.
fn checked_far_edge(origin: i32, screen: u32, window: u32) -> (edge: Option<i32>)
    ensures
        edge_fits(origin, screen, window) ==> edge == Some(far_edge(origin, screen, window) as i32),
        !edge_fits(origin, screen, window) ==> edge is None,
{
    if screen > 0x7fff_ffff || window > 0x7fff_ffff {
        return None;
    }
    let sum: i64 = origin as i64 + screen as i64;
    if sum > 0x7fff_ffff {
        return None;
    }
    let edge: i64 = sum - window as i64;
    if edge < -0x8000_0000 {
        return None;
    }
    Some(edge as i32)
}

/// Where a window of size `window_size` goes to sit in the corner `position`
/// of the screen at `monitor_pos` of size `monitor_size`. `None` where the
/// corners of the screen cannot be worked out in 32 bits.
pub fn desired_position(
    monitor_pos: Position,
    monitor_size: Size,
    window_size: Size,
    position: WindowPosition,
) -> (target: Option<Position>)
    ensures
        placement_fits(monitor_pos, monitor_size, window_size) ==> target == Some(
            corner_position(monitor_pos, monitor_size, window_size, position),
        ),
        !placement_fits(monitor_pos, monitor_size, window_size) ==> target is None,
{
    let max_x = match checked_far_edge(monitor_pos.x, monitor_size.width, window_size.width) {
        Some(edge) => edge,
        None => {
            return None;
        },
    };
    let max_y = match checked_far_edge(monitor_pos.y, monitor_size.height, window_size.height) {
        Some(edge) => edge,
        None => {
            return None;
        },
    };
    let min_x = monitor_pos.x;
    let min_y = monitor_pos.y;
    let x = match position {
        WindowPosition::TopLeft | WindowPosition::BottomLeft => min_x,
        WindowPosition::TopRight | WindowPosition::BottomRight => max_x,
    };
    let y = match position {
        WindowPosition::TopLeft | WindowPosition::TopRight => min_y,
        WindowPosition::BottomLeft | WindowPosition::BottomRight => max_y,
    };
    let final_x = if max_x < min_x {
        min_x
    } else {
        x
    };
    let final_y = if max_y < min_y {
        min_y
    } else {
        y
    };
    Some(Position { x: final_x, y: final_y })
}

/// The square of the distance between two positions.
fn squared_distance(a: Position, b: Position) -> (d: i128)
    ensures
        d == distance_squared(a, b),
        d >= 0,
{
    let dx: i128 = a.x as i128 - b.x as i128;
    let dy: i128 = a.y as i128 - b.y as i128;
    assert(0 <= dx * dx <= 0x1_0000_0000 * 0x1_0000_0000) by (nonlinear_arith)
        requires
            -0x1_0000_0000 <= dx <= 0x1_0000_0000,
    ;
    assert(0 <= dy * dy <= 0x1_0000_0000 * 0x1_0000_0000) by (nonlinear_arith)
        requires
            -0x1_0000_0000 <= dy <= 0x1_0000_0000,
    ;
    dx * dx + dy * dy
}

/// The corner of the screen that is nearest to `current_pos`, and where the
/// window goes to sit in it. Of corners that are equally near, the first in
/// the order top left, top right, bottom left, bottom right is taken.
/// `None` where the corners of the screen cannot be worked out in 32 bits.
pub fn nearest_corner(
    monitor_pos: Position,
    monitor_size: Size,
    window_size: Size,
    current_pos: Position,
) -> (nearest: Option<(WindowPosition, Position)>)
    ensures
        placement_fits(monitor_pos, monitor_size, window_size) <==> nearest is Some,
        nearest matches Some(found) ==> {
            &&& found.1 == corner_position(monitor_pos, monitor_size, window_size, found.0)
            &&& is_nearest(monitor_pos, monitor_size, window_size, current_pos, found.0)
        },
{
    let top_left = match desired_position(
        monitor_pos,
        monitor_size,
        window_size,
        WindowPosition::TopLeft,
    ) {
        Some(target) => target,
        None => {
            return None;
        },
    };
    let top_right = desired_position(
        monitor_pos,
        monitor_size,
        window_size,
        WindowPosition::TopRight,
    ).unwrap();
    let bottom_left = desired_position(
        monitor_pos,
        monitor_size,
        window_size,
        WindowPosition::BottomLeft,
    ).unwrap();
    let bottom_right = desired_position(
        monitor_pos,
        monitor_size,
        window_size,
        WindowPosition::BottomRight,
    ).unwrap();
    let mut best = (WindowPosition::TopLeft, top_left);
    let mut best_distance = squared_distance(current_pos, top_left);
    let distance = squared_distance(current_pos, top_right);
    if distance < best_distance {
        best_distance = distance;
        best = (WindowPosition::TopRight, top_right);
    }
    let distance = squared_distance(current_pos, bottom_left);
    if distance < best_distance {
        best_distance = distance;
        best = (WindowPosition::BottomLeft, bottom_left);
    }
    let distance = squared_distance(current_pos, bottom_right);
    if distance < best_distance {
        best = (WindowPosition::BottomRight, bottom_right);
    }
    Some(best)
}

/// The length that two stretches of one axis have in common: the stretch of
/// length `a_length` from `a`, and the stretch of length `b_length` from `b`.
pub open spec fn shared_length(a: i32, a_length: u32, b: i32, b_length: u32) -> int {
    let end = if a + a_length <= b + b_length {
        a + a_length
    } else {
        b + b_length
    };
    let start = if a >= b {
        a as int
    } else {
        b as int
    };
    if end > start {
        end - start
    } else {
        0
    }
}

/// The area that a window has in common with a screen.
pub open spec fn overlap_area(position: Position, size: Size, screen: Screen) -> int {
    shared_length(position.x, size.width, screen.position.x, screen.size.width) * shared_length(
        position.y,
        size.height,
        screen.position.y,
        screen.size.height,
    )
}

/// Screen `i` is the screen that the window is on: it has some area in
/// common with the window, no screen has more, and every screen that has as
/// much comes later in the list.
pub open spec fn is_best_overlap(position: Position, size: Size, screens: Seq<Screen>, i: int) -> bool {
    &&& 0 <= i < screens.len()
    &&& overlap_area(position, size, screens[i]) > 0
    &&& forall|j: int|
        0 <= j < screens.len() ==> overlap_area(position, size, #[trigger] screens[j])
            <= overlap_area(position, size, screens[i])
    &&& forall|j: int|
        0 <= j < i ==> overlap_area(position, size, #[trigger] screens[j]) < overlap_area(
            position,
            size,
            screens[i],
        )
}

/// The length that two stretches of one axis have in common.
fn common_length(a: i32, a_length: u32, b: i32, b_length: u32) -> (length: i64)
    ensures
        length == shared_length(a, a_length, b, b_length),
        0 <= length <= 0xffff_ffff,
{
    let a_end: i64 = a as i64 + a_length as i64;
    let b_end: i64 = b as i64 + b_length as i64;
    let end: i64 = if a_end <= b_end {
        a_end
    } else {
        b_end
    };
    let start: i64 = if a >= b {
        a as i64
    } else {
        b as i64
    };
    if end > start {
        end - start
    } else {
        0
    }
}

/// The area that a window has in common with a screen.
fn common_area(position: Position, size: Size, screen: &Screen) -> (area: i128)
    ensures
        area == overlap_area(position, size, *screen),
        area >= 0,
{
    let width = common_length(position.x, size.width, screen.position.x, screen.size.width);
    let height = common_length(position.y, size.height, screen.position.y, screen.size.height);
    assert(0 <= width * height <= 0xffff_ffff * 0xffff_ffff) by (nonlinear_arith)
        requires
            0 <= width <= 0xffff_ffff,
            0 <= height <= 0xffff_ffff,
    ;
    (width as i128) * (height as i128)
}

/// The place in `screens` of the screen that the window is on: the one with
/// which it has the largest area in common, and the first of them where
/// there are several. `None` where the window lies on no screen.
pub fn monitor_for_window(position: Position, size: Size, screens: &Vec<Screen>) -> (best:
    Option<usize>)
    ensures
        match best {
            Some(i) => is_best_overlap(position, size, screens@, i as int),
            None => forall|j: int|
                0 <= j < screens.len() ==> overlap_area(position, size, #[trigger] screens@[j])
                    <= 0,
        },
{
    let mut best: Option<usize> = None;
    let mut best_area: i128 = 0;
    let mut i: usize = 0;
    while i < screens.len()
        invariant
            i <= screens.len(),
            best_area >= 0,
            forall|j: int|
                0 <= j < i ==> overlap_area(position, size, #[trigger] screens@[j]) <= best_area,
            match best {
                Some(b) => {
                    &&& b < i
                    &&& best_area > 0
                    &&& best_area == overlap_area(position, size, screens@[b as int])
                    &&& forall|j: int|
                        0 <= j < b ==> overlap_area(position, size, #[trigger] screens@[j])
                            < best_area
                },
                None => best_area == 0,
            },
        decreases screens.len() - i,
    {
        let area = common_area(position, size, &screens[i]);
        if area > best_area {
            best_area = area;
            best = Some(i);
        }
        i += 1;
    }
    best
}

/// Whether two screens are taken for the same: both have a name and the
/// names are the same, or they show the same part of the desktop.
pub open spec fn is_same_screen(a: Screen, b: Screen) -> bool {
    ||| a.name is Some && b.name is Some && a.name->0@ == b.name->0@
    ||| a.position == b.position && a.size == b.size
}

/// Whether two screens are taken for the same.
pub fn same_monitor(a: &Screen, b: &Screen) -> (same: bool)
    ensures
        same == is_same_screen(*a, *b),
{
    match (&a.name, &b.name) {
        (Some(a_name), Some(b_name)) => {
            if *a_name == *b_name {
                return true;
            }
        },
        _ => {},
    }
    a.position.x == b.position.x && a.position.y == b.position.y && a.size.width == b.size.width
        && a.size.height == b.size.height
}

/// The screen at place `index` of the list of screens, as it is stored.
pub fn monitor_target_for_monitor(index: usize, monitor: &Screen) -> (target: MonitorTarget)
    ensures
        target.index == index,
        target.name == monitor.name,
{
    MonitorTarget { index, name: monitor.name.clone() }
}

/// Finds `monitor` among `monitors`: the first that is taken for the same
/// screen, with its place in the list and its own name. `None` where there
/// is none.
pub fn monitor_target_from_monitor(monitors: &Vec<Screen>, monitor: &Screen) -> (target: Option<
    MonitorTarget,
>)
    ensures
        match target {
            Some(target) => {
                &&& target.index < monitors.len()
                &&& is_same_screen(monitors@[target.index as int], *monitor)
                &&& forall|j: int|
                    0 <= j < target.index ==> !is_same_screen(#[trigger] monitors@[j], *monitor)
                &&& target.name == monitors@[target.index as int].name
            },
            None => forall|j: int|
                0 <= j < monitors.len() ==> !is_same_screen(#[trigger] monitors@[j], *monitor),
        },
{
    let mut i: usize = 0;
    while i < monitors.len()
        invariant
            i <= monitors.len(),
            forall|j: int| 0 <= j < i ==> !is_same_screen(#[trigger] monitors@[j], *monitor),
        decreases monitors.len() - i,
    {
        if same_monitor(&monitors[i], monitor) {
            return Some(monitor_target_for_monitor(i, &monitors[i]));
        }
        i += 1;
    }
    None
}

/// Whether a screen has the name `name`.
pub open spec fn is_named(screen: Screen, name: Seq<char>) -> bool {
    screen.name is Some && screen.name->0@ == name
}

/// The place in `monitors` of the screen that the user chose: the screen at
/// the place that was stored, whatever its name; where the list is too short
/// for that, the first screen of the name that was stored. `None` where
/// neither is found.
pub fn selected_monitor(monitors: &Vec<Screen>, target: &MonitorTarget) -> (place: Option<usize>)
    ensures
        target.index < monitors.len() ==> place == Some(target.index),
        target.index >= monitors.len() && target.name is None ==> place is None,
        target.index >= monitors.len() && target.name is Some ==> match place {
            Some(i) => {
                &&& i < monitors.len()
                &&& is_named(monitors@[i as int], target.name->0@)
                &&& forall|j: int|
                    0 <= j < i ==> !is_named(#[trigger] monitors@[j], target.name->0@)
            },
            None => forall|j: int|
                0 <= j < monitors.len() ==> !is_named(#[trigger] monitors@[j], target.name->0@),
        },
{
    if target.index < monitors.len() {
        return Some(target.index);
    }
    match &target.name {
        Some(name) => {
            let mut i: usize = 0;
            while i < monitors.len()
                invariant
                    i <= monitors.len(),
                    target.index >= monitors.len(),
                    target.name == Some(*name),
                    forall|j: int| 0 <= j < i ==> !is_named(#[trigger] monitors@[j], name@),
                decreases monitors.len() - i,
            {
                let named = match &monitors[i].name {
                    Some(value) => *value == *name,
                    None => false,
                };
                if named {
                    return Some(i);
                }
                i += 1;
            }
            None
        },
        None => None,
    }
}

} // verus!
