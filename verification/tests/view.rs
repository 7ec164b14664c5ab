use procband::config::ServiceConfig;
use procband::event::{Event, StreamKind};
use procband::state::{AppState, ServiceStatus};
use procband::view::{focused_log_view, log_window, service_row, service_rows, StatusColor};

fn state_with_logs(n: usize) -> AppState {
    let configs = vec![
        ServiceConfig {
            name: "gateway".into(),
            command: "npm run gateway".into(),
        },
        ServiceConfig {
            name: "auth".into(),
            command: "npm run auth".into(),
        },
    ];
    let mut state = AppState::new(&configs, 1000);
    for i in 0..n {
        state.apply(Event::Log {
            service: "gateway".into(),
            stream: StreamKind::Stdout,
            line: format!("line {i}"),
            at: std::time::Instant::now(),
        });
    }
    state
}

#[test]
fn rows_show_status_text_and_color() {
    let mut state = state_with_logs(0);
    state.set_status(0, ServiceStatus::Running { pid: 1234 });
    state.set_status(1, ServiceStatus::Crashed { code: Some(-2) });

    let rows = service_rows(&state);

    assert_eq!(rows.len(), 2);
    assert_eq!(rows[0].marker, "\u{25cf} ");
    assert_eq!(rows[0].text, "gateway      RUNNING (pid 1234)");
    assert_eq!(rows[0].color, StatusColor::Green);
    assert!(rows[0].highlighted);
    assert_eq!(rows[1].marker, "\u{2716} ");
    assert_eq!(rows[1].text, "auth         CRASHED (-2)");
    assert_eq!(rows[1].color, StatusColor::Red);
    assert!(!rows[1].highlighted);
}

#[test]
fn row_texts_match_formatting() {
    let state = state_with_logs(0);
    let mut service = AppState::new(&[state.services[0].config.clone()], 1)
        .services
        .remove(0);

    let cases = vec![
        (ServiceStatus::Starting, "STARTING".to_string(), StatusColor::Yellow),
        (ServiceStatus::Exited { code: Some(0) }, "EXITED (0)".to_string(), StatusColor::Gray),
        (ServiceStatus::Crashed { code: Some(1) }, "CRASHED (1)".to_string(), StatusColor::Red),
        (ServiceStatus::Crashed { code: None }, "CRASHED (None)".to_string(), StatusColor::Red),
        (ServiceStatus::Failed { error: "boom".into() }, "FAILED: boom".to_string(), StatusColor::Red),
        (ServiceStatus::Killed, "KILLED (by user)".to_string(), StatusColor::Magenta),
        (
            ServiceStatus::Crashed { code: Some(i32::MIN) },
            format!("CRASHED ({})", i32::MIN),
            StatusColor::Red,
        ),
    ];
    for (status, text, color) in cases {
        service.status = status;
        let row = service_row(&service, false);
        assert_eq!(row.text, format!("{:<12} {}", "gateway", text));
        assert_eq!(row.color, color);
    }
}

#[test]
fn crashed_row_matches_dashboard() {
    let configs = vec![ServiceConfig {
        name: "users".into(),
        command: "npm run users".into(),
    }];
    let mut state = AppState::new(&configs, 10);
    state.apply(Event::ProcessExited {
        service: "users".into(),
        code: Some(1),
    });

    let row = service_row(&state.services[0], false);

    assert_eq!(format!("{}{}", row.marker, row.text), "\u{2716} users        CRASHED (1)");
}

#[test]
fn long_names_are_not_cut() {
    let configs = vec![ServiceConfig {
        name: "a-very-long-service-name".into(),
        command: "x".into(),
    }];
    let state = AppState::new(&configs, 1);

    let row = service_row(&state.services[0], true);

    assert_eq!(row.text, "a-very-long-service-name STARTING");
    assert_eq!(row.marker, "\u{25cf} ");
}

#[test]
fn window_follows_latest_output_when_not_scrolled() {
    let w = log_window(10, 4, 0);

    assert_eq!((w.start, w.end, w.scroll), (6, 10, 0));
}

#[test]
fn window_scroll_is_clamped_to_history() {
    let w = log_window(10, 4, 100);
    assert_eq!((w.start, w.end, w.scroll), (0, 4, 6));

    let w = log_window(3, 4, 2);
    assert_eq!((w.start, w.end, w.scroll), (0, 3, 0));

    let w = log_window(10, 0, 3);
    assert_eq!((w.start, w.end, w.scroll), (7, 7, 3));
}

#[test]
fn focused_view_shows_latest_lines() {
    let state = state_with_logs(10);

    let view = focused_log_view(&state, 6).unwrap();

    assert_eq!(view.title, "gateway logs");
    assert_eq!(view.lines, vec!["line 6", "line 7", "line 8", "line 9"]);
}

#[test]
fn focused_view_reports_scrolling() {
    let mut state = state_with_logs(10);
    state.scroll_up(3);

    let view = focused_log_view(&state, 6).unwrap();

    assert_eq!(view.title, "gateway logs (scrolled, 3 lines back)");
    assert_eq!(view.lines, vec!["line 3", "line 4", "line 5", "line 6"]);
}

#[test]
fn focused_view_clamps_large_scroll() {
    let mut state = state_with_logs(5);
    state.scroll_up(50);

    let view = focused_log_view(&state, 5).unwrap();

    assert_eq!(view.title, "gateway logs (scrolled, 2 lines back)");
    assert_eq!(view.lines, vec!["line 0", "line 1", "line 2"]);
}

#[test]
fn focused_view_of_tiny_pane_is_empty() {
    let state = state_with_logs(5);

    let view = focused_log_view(&state, 1).unwrap();

    assert!(view.lines.is_empty());
}

#[test]
fn no_view_without_focused_service() {
    let state = AppState::new(&[], 10);

    assert!(focused_log_view(&state, 20).is_none());
}
