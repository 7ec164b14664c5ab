use procband::action::{Action, KeyCode, KeyEvent};
use procband::config::ServiceConfig;
use procband::control::{apply_action, finish_respawn, step, Effect, LoopInput};
use procband::event::{Event, StreamKind};
use procband::state::{AppState, ServiceStatus};

fn state() -> AppState {
    let configs = vec![
        ServiceConfig {
            name: "api".into(),
            command: "cargo run".into(),
        },
        ServiceConfig {
            name: "web".into(),
            command: "npm run dev".into(),
        },
    ];
    AppState::new(&configs, 10)
}

#[test]
fn quit_action_sets_should_quit() {
    let mut s = state();
    let effect = apply_action(&mut s, 2, Action::Quit);

    assert!(s.should_quit);
    assert!(matches!(effect, Effect::Nothing));
}

#[test]
fn kill_marks_focused_service_killed_and_aborts_its_task() {
    let mut s = state();
    s.next_service();

    let effect = apply_action(&mut s, 2, Action::KillFocused);

    assert!(matches!(effect, Effect::AbortTask { index: 1 }));
    assert!(matches!(s.services[1].status, ServiceStatus::Killed));
    assert!(matches!(s.services[0].status, ServiceStatus::Starting));
}

#[test]
fn kill_without_a_task_does_nothing() {
    let mut s = state();
    s.next_service();

    let effect = apply_action(&mut s, 1, Action::KillFocused);

    assert!(matches!(effect, Effect::Nothing));
    assert!(matches!(s.services[1].status, ServiceStatus::Starting));
}

#[test]
fn restart_asks_to_respawn_with_original_config() {
    let mut s = state();
    s.next_service();

    let effect = apply_action(&mut s, 2, Action::RestartFocused);

    match effect {
        Effect::Respawn {
            index,
            config,
            abort_old,
        } => {
            assert_eq!(index, 1);
            assert_eq!(config.name, "web");
            assert_eq!(config.command, "npm run dev");
            assert!(abort_old);
        }
        other => panic!("unexpected effect {other:?}"),
    }
    assert!(matches!(s.services[1].status, ServiceStatus::Starting));
}

#[test]
fn restart_without_services_does_nothing() {
    let mut s = AppState::new(&[], 10);
    let effect = apply_action(&mut s, 0, Action::RestartFocused);

    assert!(matches!(effect, Effect::Nothing));
}

#[test]
fn respawn_outcome_sets_status() {
    let mut s = state();
    finish_respawn(&mut s, 0, Ok(()));
    finish_respawn(&mut s, 1, Err("no such file".into()));

    assert!(matches!(s.services[0].status, ServiceStatus::Starting));
    assert!(matches!(
        &s.services[1].status,
        ServiceStatus::Failed { error } if error == "no such file"
    ));
}

#[test]
fn scroll_actions_move_by_scroll_step() {
    let mut s = state();
    apply_action(&mut s, 2, Action::ScrollUp);
    apply_action(&mut s, 2, Action::ScrollUp);
    assert_eq!(s.scroll, 6);

    apply_action(&mut s, 2, Action::ScrollDown);
    assert_eq!(s.scroll, 3);
}

#[test]
fn step_dispatches_inputs() {
    let mut s = state();

    assert!(matches!(step(&mut s, 2, LoopInput::Tick), Effect::Redraw));

    let effect = step(
        &mut s,
        2,
        LoopInput::Key(KeyEvent {
            code: KeyCode::Char('j'),
        }),
    );
    assert!(matches!(effect, Effect::Nothing));
    assert_eq!(s.focused, 1);

    let effect = step(
        &mut s,
        2,
        LoopInput::Process(Event::Log {
            service: "web".into(),
            stream: StreamKind::Stdout,
            line: "ready".into(),
            at: std::time::Instant::now(),
        }),
    );
    assert!(matches!(effect, Effect::Nothing));
    assert_eq!(s.services[1].logs.len(), 1);

    let effect = step(&mut s, 2, LoopInput::Key(KeyEvent { code: KeyCode::Esc }));
    assert!(matches!(effect, Effect::Nothing));
    assert!(s.should_quit);
}
