use chetris::geometry::{corner_position, AspectLock, Corner, Monitor, Point, Size};

fn monitor_1080p() -> Monitor {
    Monitor { origin: Point { x: 0, y: 0 }, size: Size { width: 1920, height: 1080 } }
}

#[test]
fn corner_math_bottom_right() {
    let p = corner_position(Corner::BottomRight, monitor_1080p(), Size { width: 200, height: 300 });
    assert_eq!(p, Point { x: 1708, y: 730 });
}

#[test]
fn corner_math_top_left() {
    let p = corner_position(Corner::TopLeft, monitor_1080p(), Size { width: 200, height: 300 });
    assert_eq!(p, Point { x: 12, y: 12 });
}

#[test]
fn corner_math_top_right() {
    let p = corner_position(Corner::TopRight, monitor_1080p(), Size { width: 200, height: 300 });
    assert_eq!(p, Point { x: 1708, y: 12 });
}

#[test]
fn corner_math_bottom_left() {
    let p = corner_position(Corner::BottomLeft, monitor_1080p(), Size { width: 200, height: 300 });
    assert_eq!(p, Point { x: 12, y: 730 });
}

#[test]
fn corner_math_offset_monitor() {
    let monitor = Monitor {
        origin: Point { x: 1920, y: 40 },
        size: Size { width: 1920, height: 1080 },
    };
    let p = corner_position(Corner::BottomRight, monitor, Size { width: 200, height: 300 });
    assert_eq!(p, Point { x: 1920 + 1708, y: 40 + 730 });
}

#[test]
fn position_twice_same_coordinates() {
    let monitor = monitor_1080p();
    let win = Size { width: 174, height: 288 };
    let first = corner_position(Corner::BottomRight, monitor, win);
    let second = corner_position(Corner::BottomRight, monitor, win);
    assert_eq!(first, second);
}

#[test]
fn width_drag_corrects_height() {
    let mut lock = AspectLock::new(174);
    // round(200 * 252 / 164) == 307
    let correction = lock.on_resize(Size { width: 200, height: 300 });
    assert_eq!(correction, Some(Size { width: 200, height: 307 }));
    assert!(lock.guard);
    lock.correction_applied();
    assert!(!lock.guard);
    assert_eq!(lock.last_width, 200);
}

#[test]
fn height_drag_corrects_width() {
    let mut lock = AspectLock::new(174);
    // round(300 * 164 / 252) == 195
    let correction = lock.on_resize(Size { width: 174, height: 300 });
    assert_eq!(correction, Some(Size { width: 195, height: 300 }));
    lock.correction_applied();
    assert_eq!(lock.last_width, 195);
}

#[test]
fn matching_size_needs_no_correction() {
    let mut lock = AspectLock::new(174);
    // round(164 * 252 / 164) == 252: the incoming size already fits the ratio
    let correction = lock.on_resize(Size { width: 164, height: 252 });
    assert_eq!(correction, None);
    assert!(!lock.guard);
    assert_eq!(lock.last_width, 164);
}

#[test]
fn corrected_size_is_stable() {
    let mut lock = AspectLock::new(174);
    let correction = lock.on_resize(Size { width: 200, height: 300 }).unwrap();
    lock.correction_applied();
    // feeding the correction back in changes nothing further
    assert_eq!(lock.on_resize(correction), None);
    assert!(!lock.guard);
}

#[test]
fn nested_callback_during_guard_is_noop() {
    let mut lock = AspectLock::new(174);
    let correction = lock.on_resize(Size { width: 200, height: 300 });
    assert!(correction.is_some());
    assert!(lock.guard);
    // the programmatic resize triggers a nested notification before the
    // guard is released: it must change nothing
    let nested = lock.on_resize(Size { width: 200, height: 307 });
    assert_eq!(nested, None);
    assert!(lock.guard);
    assert_eq!(lock.last_width, 200);
    lock.correction_applied();
    assert!(!lock.guard);
}
