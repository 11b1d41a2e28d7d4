//! Where the overlay window is put.

use rustler::overlay::{leftmost_monitor, overlay_position, Monitor, FALLBACK_POSITION};

fn monitor(x: i32, y: i32, width: u32, height: u32) -> Monitor {
    Monitor { x, y, width, height }
}

#[test]
fn no_monitor_means_the_fallback_position() {
    assert_eq!(FALLBACK_POSITION, (100, 100));
    assert_eq!(overlay_position(&vec![]), (100, 100));
    assert_eq!(leftmost_monitor(&vec![]), None);
}

#[test]
fn overlay_sits_in_the_bottom_right_corner() {
    assert_eq!(overlay_position(&vec![monitor(0, 0, 1920, 1080)]), (1720, 930));
    assert_eq!(overlay_position(&vec![monitor(-1920, 200, 1920, 1080)]), (-200, 1130));
    assert_eq!(overlay_position(&vec![monitor(0, 0, 0, 0)]), (-200, -150));
}

#[test]
fn leftmost_monitor_is_chosen() {
    let monitors = vec![monitor(1920, 0, 2560, 1440), monitor(0, 0, 1920, 1080), monitor(4480, 0, 1280, 720)];
    assert_eq!(leftmost_monitor(&monitors), Some(1));
    assert_eq!(overlay_position(&monitors), (1720, 930));
}

#[test]
fn first_of_equally_left_monitors_is_chosen() {
    let monitors = vec![monitor(5, 0, 800, 600), monitor(0, 0, 1000, 1000), monitor(0, 50, 640, 480)];
    assert_eq!(leftmost_monitor(&monitors), Some(1));
    assert_eq!(overlay_position(&monitors), (800, 850));
}

#[test]
fn position_stays_within_what_a_position_can_hold() {
    assert_eq!(
        overlay_position(&vec![monitor(i32::MAX, i32::MAX, u32::MAX, u32::MAX)]),
        (i32::MAX, i32::MAX)
    );
    assert_eq!(overlay_position(&vec![monitor(i32::MIN, i32::MIN, 0, 0)]), (i32::MIN, i32::MIN));
    assert_eq!(overlay_position(&vec![monitor(i32::MAX, 0, 200, 150)]), (i32::MAX, 0));
}
