use tatsu_monitor::state::MonitorTarget;
use tatsu_monitor::state::WindowPosition;
use tatsu_monitor::window::desired_position;
use tatsu_monitor::window::monitor_target_for_monitor;
use tatsu_monitor::window::monitor_target_from_monitor;
use tatsu_monitor::window::nearest_corner;
use tatsu_monitor::window::same_monitor;
use tatsu_monitor::window::monitor_for_window;
use tatsu_monitor::window::selected_monitor;
use tatsu_monitor::window::Position;
use tatsu_monitor::window::Screen;
use tatsu_monitor::window::Size;

fn at(x: i32, y: i32) -> Position {
    Position { x, y }
}

fn size(width: u32, height: u32) -> Size {
    Size { width, height }
}

fn screen(name: Option<&str>, x: i32, y: i32, width: u32, height: u32) -> Screen {
    Screen { name: name.map(|n| n.to_string()), position: at(x, y), size: size(width, height) }
}

#[test]
fn corners_of_a_screen() {
    let origin = at(0, 0);
    let full = size(1920, 1080);
    let window = size(190, 40);
    assert_eq!(desired_position(origin, full, window, WindowPosition::TopLeft), Some(at(0, 0)));
    assert_eq!(
        desired_position(origin, full, window, WindowPosition::TopRight),
        Some(at(1730, 0))
    );
    assert_eq!(
        desired_position(origin, full, window, WindowPosition::BottomLeft),
        Some(at(0, 1040))
    );
    assert_eq!(
        desired_position(origin, full, window, WindowPosition::BottomRight),
        Some(at(1730, 1040))
    );
}

#[test]
fn corners_of_a_screen_left_of_the_first() {
    let origin = at(-2560, 200);
    let full = size(2560, 1440);
    let window = size(75, 100);
    assert_eq!(
        desired_position(origin, full, window, WindowPosition::TopLeft),
        Some(at(-2560, 200))
    );
    assert_eq!(
        desired_position(origin, full, window, WindowPosition::BottomRight),
        Some(at(-75, 1540))
    );
}

#[test]
fn window_larger_than_the_screen_sits_at_the_near_edge() {
    let origin = at(100, 50);
    let small = size(100, 2000);
    let window = size(190, 40);
    assert_eq!(
        desired_position(origin, small, window, WindowPosition::BottomRight),
        Some(at(100, 2010))
    );
    assert_eq!(
        desired_position(origin, size(100, 30), window, WindowPosition::BottomRight),
        Some(at(100, 50))
    );
    assert_eq!(
        desired_position(origin, size(800, 30), window, WindowPosition::TopRight),
        Some(at(710, 50))
    );
}

#[test]
fn window_as_large_as_the_screen() {
    let origin = at(10, 20);
    let full = size(300, 200);
    assert_eq!(desired_position(origin, full, full, WindowPosition::BottomRight), Some(at(10, 20)));
}

#[test]
fn corners_that_cannot_be_worked_out() {
    let window = size(10, 10);
    assert_eq!(
        desired_position(at(i32::MAX, 0), size(1, 1), window, WindowPosition::TopLeft),
        None
    );
    assert_eq!(
        desired_position(at(0, i32::MAX - 5), size(100, 6), window, WindowPosition::TopLeft),
        None
    );
    assert_eq!(
        desired_position(at(0, 0), size(1 << 31, 100), window, WindowPosition::TopLeft),
        None
    );
    assert_eq!(
        desired_position(at(0, 0), size(100, 100), size(u32::MAX, 1), WindowPosition::TopLeft),
        None
    );
    assert_eq!(
        desired_position(at(i32::MIN, 0), size(0, 100), size(1, 1), WindowPosition::TopLeft),
        None
    );
    assert_eq!(
        desired_position(at(i32::MIN, 0), size(1, 100), size(1, 1), WindowPosition::TopRight),
        Some(at(i32::MIN, 0))
    );
    assert_eq!(
        desired_position(at(0, 0), size(i32::MAX as u32, 5), size(0, 0), WindowPosition::TopRight),
        Some(at(i32::MAX, 0))
    );
    assert_eq!(nearest_corner(at(i32::MAX, 0), size(1, 1), window, at(0, 0)), None);
}

#[test]
fn nearest_of_four_corners() {
    let origin = at(0, 0);
    let full = size(1000, 800);
    let window = size(100, 100);
    assert_eq!(
        nearest_corner(origin, full, window, at(10, 10)),
        Some((WindowPosition::TopLeft, at(0, 0)))
    );
    assert_eq!(
        nearest_corner(origin, full, window, at(800, 90)),
        Some((WindowPosition::TopRight, at(900, 0)))
    );
    assert_eq!(
        nearest_corner(origin, full, window, at(100, 600)),
        Some((WindowPosition::BottomLeft, at(0, 700)))
    );
    assert_eq!(
        nearest_corner(origin, full, window, at(5000, 5000)),
        Some((WindowPosition::BottomRight, at(900, 700)))
    );
    assert_eq!(
        nearest_corner(origin, full, window, at(-5000, -5000)),
        Some((WindowPosition::TopLeft, at(0, 0)))
    );
}

#[test]
fn equally_near_corners() {
    let origin = at(0, 0);
    let full = size(1000, 800);
    let window = size(100, 100);
    // in the middle of all four
    assert_eq!(
        nearest_corner(origin, full, window, at(450, 350)),
        Some((WindowPosition::TopLeft, at(0, 0)))
    );
    // between the two on the right
    assert_eq!(
        nearest_corner(origin, full, window, at(900, 350)),
        Some((WindowPosition::TopRight, at(900, 0)))
    );
    // between the two at the bottom
    assert_eq!(
        nearest_corner(origin, full, window, at(450, 700)),
        Some((WindowPosition::BottomLeft, at(0, 700)))
    );
    // a window larger than the screen has one corner only
    assert_eq!(
        nearest_corner(origin, size(50, 50), window, at(700, 700)),
        Some((WindowPosition::TopLeft, at(0, 0)))
    );
}

#[test]
fn distances_between_far_positions() {
    let origin = at(i32::MIN, i32::MIN);
    let full = size(i32::MAX as u32, i32::MAX as u32);
    let window = size(0, 0);
    assert_eq!(
        nearest_corner(origin, full, window, at(i32::MAX, i32::MAX)),
        Some((WindowPosition::BottomRight, at(-1, -1)))
    );
    assert_eq!(
        nearest_corner(origin, full, window, at(i32::MAX, i32::MIN)),
        Some((WindowPosition::TopRight, at(-1, i32::MIN)))
    );
}

#[test]
fn screen_with_the_largest_share_of_the_window() {
    let screens = vec![
        screen(Some("left"), 0, 0, 1920, 1080),
        screen(Some("right"), 1920, 0, 1920, 1080),
    ];
    assert_eq!(monitor_for_window(at(100, 100), size(200, 100), &screens), Some(0));
    assert_eq!(monitor_for_window(at(2000, 100), size(200, 100), &screens), Some(1));
    // 120 pixels on the left screen, 80 on the right
    assert_eq!(monitor_for_window(at(1800, 100), size(200, 100), &screens), Some(0));
    // 80 pixels on the left screen, 120 on the right
    assert_eq!(monitor_for_window(at(1840, 100), size(200, 100), &screens), Some(1));
    // half and half: the first
    assert_eq!(monitor_for_window(at(1820, 100), size(200, 100), &screens), Some(0));
}

#[test]
fn window_on_no_screen() {
    let screens = vec![screen(None, 0, 0, 1920, 1080)];
    assert_eq!(monitor_for_window(at(5000, 5000), size(200, 100), &screens), None);
    assert_eq!(monitor_for_window(at(-200, 0), size(200, 100), &screens), None);
    assert_eq!(monitor_for_window(at(1920, 0), size(200, 100), &screens), None);
    assert_eq!(monitor_for_window(at(100, 100), size(0, 100), &screens), None);
    assert_eq!(monitor_for_window(at(100, 100), size(200, 100), &Vec::new()), None);
    assert_eq!(monitor_for_window(at(-199, 0), size(200, 100), &screens), Some(0));
}

#[test]
fn overlap_of_the_largest_windows() {
    let screens = vec![
        screen(None, 0, 0, 10, 10),
        screen(None, i32::MIN, i32::MIN, u32::MAX, u32::MAX),
    ];
    assert_eq!(
        monitor_for_window(at(i32::MIN, i32::MIN), size(u32::MAX, u32::MAX), &screens),
        Some(1)
    );
    assert_eq!(
        monitor_for_window(at(i32::MAX, i32::MAX), size(u32::MAX, u32::MAX), &screens),
        None
    );
}

#[test]
fn screens_that_are_the_same() {
    let a = screen(Some("DP-1"), 0, 0, 1920, 1080);
    assert!(same_monitor(&a, &a));
    assert!(same_monitor(&a, &screen(Some("DP-1"), 1920, 0, 1280, 1024)));
    assert!(same_monitor(&a, &screen(Some("DP-2"), 0, 0, 1920, 1080)));
    assert!(same_monitor(&a, &screen(None, 0, 0, 1920, 1080)));
    assert!(same_monitor(&screen(None, 0, 0, 1920, 1080), &screen(None, 0, 0, 1920, 1080)));
}

#[test]
fn screens_that_differ() {
    let a = screen(Some("DP-1"), 0, 0, 1920, 1080);
    assert!(!same_monitor(&a, &screen(Some("DP-2"), 1920, 0, 1920, 1080)));
    assert!(!same_monitor(&a, &screen(Some("DP-2"), 0, 0, 1920, 1200)));
    assert!(!same_monitor(&a, &screen(None, 0, 1, 1920, 1080)));
    assert!(!same_monitor(&a, &screen(None, 0, 0, 1921, 1080)));
    assert!(!same_monitor(&screen(None, 1, 0, 1, 1), &screen(None, 0, 0, 1, 1)));
}

#[test]
fn screen_found_in_the_list() {
    let screens = vec![
        screen(Some("eDP-1"), 0, 0, 1920, 1080),
        screen(Some("DP-1"), 1920, 0, 2560, 1440),
        screen(None, 4480, 0, 1280, 1024),
    ];
    assert_eq!(
        monitor_target_from_monitor(&screens, &screens[1]),
        Some(MonitorTarget { index: 1, name: Some("DP-1".to_string()) })
    );
    assert_eq!(
        monitor_target_from_monitor(&screens, &screens[2]),
        Some(MonitorTarget { index: 2, name: None })
    );
    // found by what it shows, stored under the name in the list
    assert_eq!(
        monitor_target_from_monitor(&screens, &screen(Some("other"), 0, 0, 1920, 1080)),
        Some(MonitorTarget { index: 0, name: Some("eDP-1".to_string()) })
    );
    assert_eq!(monitor_target_from_monitor(&screens, &screen(None, 9, 9, 9, 9)), None);
    assert_eq!(monitor_target_from_monitor(&Vec::new(), &screens[0]), None);
    assert_eq!(
        monitor_target_for_monitor(4, &screens[1]),
        MonitorTarget { index: 4, name: Some("DP-1".to_string()) }
    );
}

#[test]
fn chosen_screen() {
    let screens = vec![
        screen(Some("eDP-1"), 0, 0, 1920, 1080),
        screen(Some("DP-1"), 1920, 0, 2560, 1440),
        screen(Some("DP-1"), 4480, 0, 2560, 1440),
    ];
    let by_place = MonitorTarget { index: 1, name: Some("eDP-1".to_string()) };
    assert_eq!(selected_monitor(&screens, &by_place), Some(1));
    let by_name = MonitorTarget { index: 3, name: Some("DP-1".to_string()) };
    assert_eq!(selected_monitor(&screens, &by_name), Some(1));
    let unknown = MonitorTarget { index: 3, name: Some("HDMI-1".to_string()) };
    assert_eq!(selected_monitor(&screens, &unknown), None);
    let nameless = MonitorTarget { index: 3, name: None };
    assert_eq!(selected_monitor(&screens, &nameless), None);
    assert_eq!(selected_monitor(&Vec::new(), &by_place), None);
}
