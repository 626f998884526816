use pagbar::bar::{Color, Config, Position};
use pagbar::error::Error;
use pagbar::geometry::{Monitor, Rect};
use pagbar::manager::{Action, BarWindowId, Manager, WindowEvent};

fn config(monitor: usize, position: Position, size: u16) -> Config {
    Config {
        monitor,
        title: String::from("pagbar"),
        position,
        size,
        background: Color { r: 0, g: 0, b: 0 },
        text: Color { r: 255, g: 255, b: 255 },
        text_secondary: Color { r: 150, g: 150, b: 150 },
    }
}

fn two_monitors() -> Vec<Monitor> {
    vec![
        Monitor { x: 0, y: 0, width: 1920, height: 1080 },
        Monitor { x: 1920, y: 0, width: 1280, height: 1024 },
    ]
}

#[test]
fn create_bars_builds_suspended_bars_and_empty_router() {
    let configs = vec![config(0, Position::Bottom, 50), config(1, Position::Right, 40)];
    let m = Manager::create_bars(configs, &two_monitors()).unwrap();
    assert_eq!(m.num_bars(), 2);
    assert!(!m.bar_is_active(0));
    assert!(!m.bar_is_active(1));
    assert_eq!(m.route(17), None);
    assert_eq!(m.active_bars(), Vec::<BarWindowId>::new());
}

#[test]
fn create_bars_rejects_monitor_index_out_of_range() {
    let configs = vec![config(0, Position::Bottom, 50), config(3, Position::Top, 20)];
    let err = match Manager::create_bars(configs, &two_monitors()) {
        Ok(_) => panic!("expected a fatal startup error"),
        Err(e) => e,
    };
    assert_eq!(err, Error::MonitorOutOfRange { index: 3, count: 2 });
    assert_eq!(err.message(), "monitor index 3 out of range 0..2");
}

#[test]
fn create_bars_reports_the_first_offending_entry() {
    let configs = vec![config(9, Position::Left, 10), config(3, Position::Top, 20)];
    let err = match Manager::create_bars(configs, &two_monitors()) {
        Ok(_) => panic!("expected a fatal startup error"),
        Err(e) => e,
    };
    assert_eq!(err, Error::MonitorOutOfRange { index: 9, count: 2 });
}

#[test]
fn resolve_rect_matches_the_geometry_resolver() {
    let configs = vec![config(0, Position::Bottom, 50), config(1, Position::Right, 40)];
    let m = Manager::create_bars(configs, &two_monitors()).unwrap();
    assert_eq!(m.resolve_rect(0), Rect { x: 0, y: 1030, width: 1920, height: 50 });
    assert_eq!(m.resolve_rect(1), Rect { x: 3160, y: 0, width: 40, height: 1024 });
}

#[test]
fn overlapping_bars_on_one_monitor_both_activate() {
    let configs = vec![config(0, Position::Bottom, 50), config(0, Position::Bottom, 30)];
    let mut m = Manager::create_bars(configs, &two_monitors()).unwrap();
    let rect0 = m.resolve_rect(0);
    let rect1 = m.resolve_rect(1);
    m.activate(0, 1001, rect0.width, rect0.height);
    m.activate(1, 1002, rect1.width, rect1.height);
    assert!(m.bar_is_active(0));
    assert!(m.bar_is_active(1));
    assert_eq!(m.route(1001), Some(BarWindowId(0)));
    assert_eq!(m.route(1002), Some(BarWindowId(1)));
}

#[test]
fn suspend_removes_the_router_entry_before_the_window_dies() {
    let configs = vec![config(0, Position::Top, 20)];
    let mut m = Manager::create_bars(configs, &two_monitors()).unwrap();
    m.activate(0, 42, 1920, 20);
    assert_eq!(m.route(42), Some(BarWindowId(0)));
    m.suspend(0);
    assert!(!m.bar_is_active(0));
    assert_eq!(m.route(42), None);
}

#[test]
fn suspend_then_resume_restores_the_same_rectangle() {
    let configs = vec![config(1, Position::Right, 40)];
    let mut m = Manager::create_bars(configs, &two_monitors()).unwrap();
    let rect = m.resolve_rect(0);
    m.activate(0, 7, rect.width, rect.height);
    let first = m.resolve_rect(0);
    m.suspend(0);
    m.activate(0, 8, rect.width, rect.height);
    let second = m.resolve_rect(0);
    assert_eq!(first, second);
    assert_eq!(m.route(8), Some(BarWindowId(0)));
    assert_eq!(m.route(7), None);
}

#[test]
fn suspend_all_empties_the_router_and_resume_recreates_all() {
    let configs = vec![
        config(0, Position::Bottom, 50),
        config(0, Position::Top, 20),
        config(1, Position::Right, 40),
    ];
    let mut m = Manager::create_bars(configs, &two_monitors()).unwrap();
    m.activate(0, 100, 1920, 50);
    m.activate(1, 101, 1920, 20);
    m.activate(2, 102, 40, 1024);
    let rects = [m.resolve_rect(0), m.resolve_rect(1), m.resolve_rect(2)];
    assert_eq!(m.active_bars().len(), 3);

    m.suspend_all();
    assert!(!m.bar_is_active(0));
    assert!(!m.bar_is_active(1));
    assert!(!m.bar_is_active(2));
    assert_eq!(m.route(100), None);
    assert_eq!(m.route(101), None);
    assert_eq!(m.route(102), None);
    assert_eq!(m.active_bars().len(), 0);

    m.activate(0, 200, 1920, 50);
    m.activate(1, 201, 1920, 20);
    m.activate(2, 202, 40, 1024);
    assert_eq!(m.active_bars(), vec![BarWindowId(0), BarWindowId(1), BarWindowId(2)]);
    assert_eq!([m.resolve_rect(0), m.resolve_rect(1), m.resolve_rect(2)], rects);
}

#[test]
fn resize_event_updates_the_surface_and_nothing_else() {
    let configs = vec![config(0, Position::Bottom, 50)];
    let mut m = Manager::create_bars(configs, &two_monitors()).unwrap();
    m.activate(0, 5, 1920, 50);
    let action = m.on_window_event(5, WindowEvent::Resized { width: 960, height: 50 });
    assert_eq!(action, Action::ResizeSurface { bar: BarWindowId(0), width: 960, height: 50 });
    assert!(m.bar_is_active(0));
    assert_eq!(m.route(5), Some(BarWindowId(0)));
}

#[test]
fn close_on_the_last_window_exits_the_loop() {
    let configs = vec![config(0, Position::Bottom, 50), config(0, Position::Top, 20)];
    let mut m = Manager::create_bars(configs, &two_monitors()).unwrap();
    m.activate(0, 11, 1920, 50);
    m.activate(1, 12, 1920, 20);

    let first = m.on_window_event(11, WindowEvent::CloseRequested);
    assert_eq!(first, Action::Teardown { bar: BarWindowId(0), exit: false });
    assert!(!m.bar_is_active(0));
    assert!(m.bar_is_active(1));

    let last = m.on_window_event(12, WindowEvent::CloseRequested);
    assert_eq!(last, Action::Teardown { bar: BarWindowId(1), exit: true });
    assert!(!m.bar_is_active(1));
}

#[test]
fn events_for_unknown_windows_are_ignored() {
    let configs = vec![config(0, Position::Bottom, 50)];
    let mut m = Manager::create_bars(configs, &two_monitors()).unwrap();
    m.activate(0, 21, 1920, 50);
    let action = m.on_window_event(99, WindowEvent::CloseRequested);
    assert_eq!(action, Action::Ignore);
    assert!(m.bar_is_active(0));
    assert_eq!(m.on_redraw_request(99), None);
    assert!(!m.on_user_event(99));
}

#[test]
fn redraw_request_hands_back_the_content_area() {
    let configs = vec![config(1, Position::Right, 40)];
    let mut m = Manager::create_bars(configs, &two_monitors()).unwrap();
    m.activate(0, 33, 40, 1024);
    assert_eq!(m.on_redraw_request(33), Some((BarWindowId(0), 40, 1024)));
    assert!(m.on_user_event(33));
}

#[test]
fn active_bars_lists_only_live_bars_in_order() {
    let configs = vec![
        config(0, Position::Bottom, 50),
        config(0, Position::Top, 20),
        config(1, Position::Left, 10),
    ];
    let mut m = Manager::create_bars(configs, &two_monitors()).unwrap();
    m.activate(0, 1, 1920, 50);
    m.activate(2, 3, 10, 1024);
    assert_eq!(m.active_bars(), vec![BarWindowId(0), BarWindowId(2)]);
}
