use procband::config::ServiceConfig;
use procband::event::{Event, StreamKind};
use procband::state::{AppState, ServiceStatus};

fn test_configs() -> Vec<ServiceConfig> {
    vec![
        ServiceConfig {
            name: "gateway".into(),
            command: "echo gateway".into(),
        },
        ServiceConfig {
            name: "auth".into(),
            command: "echo auth".into(),
        },
        ServiceConfig {
            name: "users".into(),
            command: "echo users".into(),
        },
    ]
}

#[test]
fn starts_with_first_service_focused() {
    let state = AppState::new(&test_configs(), 100);

    assert_eq!(state.focused, 0);
    assert_eq!(state.scroll, 0);
    assert!(!state.should_quit);
}

#[test]
fn next_service_wraps_around() {
    let configs = test_configs();
    let mut state = AppState::new(&configs, 100);

    state.next_service();
    assert_eq!(state.focused, 1);

    state.next_service();
    assert_eq!(state.focused, 2);

    state.next_service();
    assert_eq!(state.focused, 0);
}

#[test]
fn previous_service_wraps_around() {
    let configs = test_configs();
    let mut state = AppState::new(&configs, 100);

    state.prev_service();

    assert_eq!(state.focused, 2);
}

#[test]
fn changing_service_resets_scroll() {
    let configs = test_configs();
    let mut state = AppState::new(&configs, 100);

    state.scroll_up(10);
    assert_eq!(state.scroll, 10);

    state.next_service();

    assert_eq!(state.scroll, 0);
}

#[test]
fn scrolling_down_saturates_at_zero() {
    let configs = test_configs();
    let mut state = AppState::new(&configs, 100);

    state.scroll_up(5);
    state.scroll_down(10);

    assert_eq!(state.scroll, 0);
}

#[test]
fn process_started_sets_running_status() {
    let configs = test_configs();
    let mut state = AppState::new(&configs, 100);

    state.apply(Event::ProcessStarted {
        service: "gateway".into(),
        pid: 1234,
    });

    assert!(matches!(
        state.services[0].status,
        ServiceStatus::Running { pid: 1234 }
    ));
}

#[test]
fn successful_exit_sets_exited_status() {
    let configs = test_configs();
    let mut state = AppState::new(&configs, 100);

    state.apply(Event::ProcessExited {
        service: "gateway".into(),
        code: Some(0),
    });

    assert!(matches!(
        state.services[0].status,
        ServiceStatus::Exited { code: Some(0) }
    ));
}

#[test]
fn nonzero_exit_sets_crashed_status() {
    let configs = test_configs();
    let mut state = AppState::new(&configs, 100);

    state.apply(Event::ProcessExited {
        service: "gateway".into(),
        code: Some(1),
    });

    assert!(matches!(
        state.services[0].status,
        ServiceStatus::Crashed { code: Some(1) }
    ));
}

#[test]
fn log_event_is_added_to_service() {
    let configs = test_configs();
    let mut state = AppState::new(&configs, 100);

    state.apply(Event::Log {
        service: "gateway".into(),
        stream: StreamKind::Stdout,
        line: "Server started".into(),
        at: std::time::Instant::now(),
    });

    assert_eq!(state.services[0].logs.len(), 1);
    assert_eq!(
        state.services[0].logs.iter().next().unwrap().text,
        "Server started"
    );
}

#[test]
fn process_failure_sets_failed_status() {
    let configs = test_configs();
    let mut state = AppState::new(&configs, 100);

    state.apply(Event::ProcessFailed {
        service: "gateway".into(),
        error: "Permission denied".into(),
    });

    assert!(matches!(
        &state.services[0].status,
        ServiceStatus::Failed { error } if error == "Permission denied"
    ));
}

#[test]
fn exit_without_code_is_a_crash() {
    let mut state = AppState::new(&test_configs(), 100);

    state.apply(Event::ProcessExited {
        service: "auth".into(),
        code: None,
    });

    assert!(matches!(
        state.services[1].status,
        ServiceStatus::Crashed { code: None }
    ));
    assert!(matches!(state.services[0].status, ServiceStatus::Starting));
    assert!(matches!(state.services[2].status, ServiceStatus::Starting));
}

#[test]
fn event_for_unknown_service_changes_nothing() {
    let mut state = AppState::new(&test_configs(), 100);
    state.scroll_up(2);

    state.apply(Event::ProcessStarted {
        service: "billing".into(),
        pid: 7,
    });
    state.apply(Event::Log {
        service: "billing".into(),
        stream: StreamKind::Stderr,
        line: "lost".into(),
        at: std::time::Instant::now(),
    });

    for s in &state.services {
        assert!(matches!(s.status, ServiceStatus::Starting));
        assert_eq!(s.logs.len(), 0);
    }
    assert_eq!(state.scroll, 2);
    assert_eq!(state.focused, 0);
}

#[test]
fn event_reaches_only_the_first_service_with_its_name() {
    let mut configs = test_configs();
    configs.push(ServiceConfig {
        name: "auth".into(),
        command: "echo again".into(),
    });
    let mut state = AppState::new(&configs, 100);

    state.apply(Event::ProcessStarted {
        service: "auth".into(),
        pid: 42,
    });

    assert!(matches!(state.services[1].status, ServiceStatus::Running { pid: 42 }));
    assert!(matches!(state.services[3].status, ServiceStatus::Starting));
}

#[test]
fn new_output_keeps_scroll_position() {
    let mut state = AppState::new(&test_configs(), 100);
    state.scroll_up(6);

    state.apply(Event::Log {
        service: "gateway".into(),
        stream: StreamKind::Stdout,
        line: "more".into(),
        at: std::time::Instant::now(),
    });

    assert_eq!(state.scroll, 6);
}

#[test]
fn prev_undoes_next_and_resets_scroll() {
    let mut state = AppState::new(&test_configs(), 100);
    state.next_service();
    state.scroll_up(4);

    state.next_service();
    state.prev_service();

    assert_eq!(state.focused, 1);
    assert_eq!(state.scroll, 0);
}

#[test]
fn scroll_down_undoes_scroll_up() {
    let mut state = AppState::new(&test_configs(), 100);
    state.scroll_up(7);
    state.scroll_up(3);
    state.scroll_down(3);

    assert_eq!(state.scroll, 7);
}

#[test]
fn scroll_up_saturates_at_max() {
    let mut state = AppState::new(&test_configs(), 100);
    state.scroll_up(usize::MAX);
    state.scroll_up(5);

    assert_eq!(state.scroll, usize::MAX);
}

#[test]
fn focus_moves_do_nothing_without_services() {
    let mut state = AppState::new(&[], 100);
    state.scroll_up(3);
    state.next_service();
    state.prev_service();

    assert_eq!(state.focused, 0);
    assert_eq!(state.scroll, 3);
}

#[test]
fn set_status_ignores_out_of_range_index() {
    let mut state = AppState::new(&test_configs(), 100);
    state.set_status(2, ServiceStatus::Killed);
    state.set_status(3, ServiceStatus::Killed);

    assert!(matches!(state.services[2].status, ServiceStatus::Killed));
    assert!(matches!(state.services[1].status, ServiceStatus::Starting));
}

#[test]
fn log_lines_respect_service_capacity() {
    let mut state = AppState::new(&test_configs(), 2);
    for text in ["one", "two", "three"] {
        state.apply(Event::Log {
            service: "users".into(),
            stream: StreamKind::Stdout,
            line: text.into(),
            at: std::time::Instant::now(),
        });
    }

    let texts: Vec<_> = state.services[2].logs.iter().map(|l| l.text.as_str()).collect();
    assert_eq!(texts, vec!["two", "three"]);
}

#[test]
fn find_mut_returns_first_match() {
    let mut state = AppState::new(&test_configs(), 100);
    assert!(state.find_mut("nobody").is_none());

    let found = state.find_mut("users").unwrap();
    found.status = ServiceStatus::Killed;

    assert!(matches!(state.services[2].status, ServiceStatus::Killed));
}
