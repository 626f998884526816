use pagbar::bar::Position;
use pagbar::error::Error;
use pagbar::geometry::{resolve, select_monitor, Monitor, Rect};

fn monitor(x: i32, y: i32, width: u32, height: u32) -> Monitor {
    Monitor { x, y, width, height }
}

#[test]
fn bottom_bar_on_primary_monitor() {
    let m = monitor(0, 0, 1920, 1080);
    let r = resolve(&m, &Position::Bottom, 50);
    assert_eq!(r, Rect { x: 0, y: 1030, width: 1920, height: 50 });
}

#[test]
fn right_bar_on_secondary_monitor() {
    let m = monitor(1920, 0, 1280, 1024);
    let r = resolve(&m, &Position::Right, 40);
    assert_eq!(r, Rect { x: 3160, y: 0, width: 40, height: 1024 });
}

#[test]
fn left_bar_pins_to_monitor_origin() {
    let m = monitor(100, 200, 800, 600);
    let r = resolve(&m, &Position::Left, 30);
    assert_eq!(r, Rect { x: 100, y: 200, width: 30, height: 600 });
}

#[test]
fn top_bar_spans_monitor_width() {
    let m = monitor(-500, -400, 1024, 768);
    let r = resolve(&m, &Position::Top, 24);
    assert_eq!(r, Rect { x: -500, y: -400, width: 1024, height: 24 });
}

#[test]
fn thickness_dimension_is_exact_on_each_edge() {
    let m = monitor(0, 0, 640, 480);
    assert_eq!(resolve(&m, &Position::Left, 7).width, 7);
    assert_eq!(resolve(&m, &Position::Right, 7).width, 7);
    assert_eq!(resolve(&m, &Position::Top, 7).height, 7);
    assert_eq!(resolve(&m, &Position::Bottom, 7).height, 7);
}

#[test]
fn resolved_rect_stays_within_monitor_bounds() {
    let m = monitor(50, 60, 1000, 900);
    for position in [Position::Left, Position::Right, Position::Top, Position::Bottom] {
        let r = resolve(&m, &position, 100);
        assert!(m.x <= r.x);
        assert!(r.x as i64 + r.width as i64 <= m.x as i64 + m.width as i64);
        assert!(m.y <= r.y);
        assert!(r.y as i64 + r.height as i64 <= m.y as i64 + m.height as i64);
    }
}

#[test]
fn oversized_thickness_overhangs_the_far_edge() {
    let m = monitor(0, 0, 100, 100);
    let r = resolve(&m, &Position::Bottom, 150);
    assert_eq!(r.y, -50);
    assert_eq!(r.height, 150);
}

#[test]
fn select_monitor_in_range() {
    let monitors = vec![monitor(0, 0, 1920, 1080), monitor(1920, 0, 1280, 1024)];
    assert_eq!(select_monitor(&monitors, 1), Ok(monitor(1920, 0, 1280, 1024)));
}

#[test]
fn select_monitor_out_of_range_names_index_and_range() {
    let monitors = vec![monitor(0, 0, 1920, 1080), monitor(1920, 0, 1280, 1024)];
    let err = select_monitor(&monitors, 3).unwrap_err();
    assert_eq!(err, Error::MonitorOutOfRange { index: 3, count: 2 });
    assert_eq!(err.message(), "monitor index 3 out of range 0..2");
}

#[test]
fn error_message_formats_multi_digit_numbers() {
    let err = Error::MonitorOutOfRange { index: 1204, count: 10 };
    assert_eq!(err.message(), "monitor index 1204 out of range 0..10");
    assert_eq!(Error::Unknown.message(), "unknown");
}
