use procband::config::Config;
use procband::event::Event;
use procband::report::{failure_message, finished_event, started_event, ProcessStep};
use procband::supervisor::{initial_state, DEFAULT_LOG_CAPACITY};

#[test]
fn started_event_carries_pid() {
    let name = String::from("api");
    match started_event(&name, Some(77)) {
        Event::ProcessStarted { service, pid } => {
            assert_eq!(service, "api");
            assert_eq!(pid, 77);
        }
        other => panic!("unexpected {other:?}"),
    }
    assert!(matches!(
        started_event(&name, None),
        Event::ProcessStarted { pid: 0, .. }
    ));
}

#[test]
fn finished_event_reports_exit_or_failure() {
    match finished_event("api".into(), Ok(Some(42))) {
        Event::ProcessExited { service, code } => {
            assert_eq!(service, "api");
            assert_eq!(code, Some(42));
        }
        other => panic!("unexpected {other:?}"),
    }
    match finished_event("api".into(), Err("wait failed".into())) {
        Event::ProcessFailed { service, error } => {
            assert_eq!(service, "api");
            assert_eq!(error, "wait failed");
        }
        other => panic!("unexpected {other:?}"),
    }
}

#[test]
fn initial_state_keeps_thousand_lines_per_service() {
    let config = Config::from_str("a: x\nb: y").unwrap();
    let mut state = initial_state(&config);

    assert_eq!(DEFAULT_LOG_CAPACITY, 1000);
    assert_eq!(state.services.len(), 2);
    assert_eq!(state.services[1].config.name, "b");
    for i in 0..1005 {
        state.apply(Event::Log {
            service: "a".into(),
            stream: procband::event::StreamKind::Stdout,
            line: format!("{i}"),
            at: std::time::Instant::now(),
        });
    }
    assert_eq!(state.services[0].logs.len(), 1000);
    assert_eq!(state.services[0].logs.iter().next().unwrap().text, "5");
}

#[test]
fn cloned_log_event_keeps_its_timestamp() {
    let at = std::time::Instant::now();
    let event = Event::Log {
        service: "api".into(),
        stream: procband::event::StreamKind::Stderr,
        line: "oops".into(),
        at,
    };

    match event.clone() {
        Event::Log { service, line, at: cloned_at, .. } => {
            assert_eq!(service, "api");
            assert_eq!(line, "oops");
            assert_eq!(cloned_at, at);
        }
        other => panic!("unexpected {other:?}"),
    }
}

#[test]
fn failure_messages_name_step_service_and_error() {
    assert_eq!(
        failure_message(ProcessStep::Spawn, "api", "No such file or directory (os error 2)"),
        "failed to spawn child process: 'api': No such file or directory (os error 2)"
    );
    assert_eq!(
        failure_message(ProcessStep::Wait, "web", "interrupted"),
        "failed to wait for child process: 'web': interrupted"
    );
    assert_eq!(
        failure_message(ProcessStep::Signal, "db", "Operation not permitted (os error 1)"),
        "failed to signal process group for 'db': Operation not permitted (os error 1)"
    );
    assert_eq!(
        failure_message(ProcessStep::Stop, "db", "gone"),
        "failed to stop 'db': gone"
    );
}

#[test]
fn process_group_target_negates_pid() {
    use_target(1234, -1234);
    use_target(1, -1);
    use_target(0, 0);
    use_target(0xFFFF_FFFF, 1);
    use_target(0x8000_0001, i32::MAX);
}

fn use_target(pid: u32, expected: i32) {
    assert_eq!(procband::process_group::process_group_target(pid), expected);
}
