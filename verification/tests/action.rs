use procband::action::{map_key, Action, KeyCode, KeyEvent, SCROLL_STEP};

fn key(code: KeyCode) -> KeyEvent {
    KeyEvent { code }
}

#[test]
fn maps_quit_keys() {
    assert!(matches!(map_key(key(KeyCode::Char('q'))), Action::Quit));
    assert!(matches!(map_key(key(KeyCode::Esc)), Action::Quit));
}

#[test]
fn maps_navigation_keys() {
    assert!(matches!(
        map_key(key(KeyCode::Char('j'))),
        Action::NextService
    ));

    assert!(matches!(map_key(key(KeyCode::Down)), Action::NextService));

    assert!(matches!(
        map_key(key(KeyCode::Char('k'))),
        Action::PrevService
    ));

    assert!(matches!(map_key(key(KeyCode::Up)), Action::PrevService));
}

#[test]
fn maps_control_keys() {
    assert!(matches!(map_key(key(KeyCode::PageUp)), Action::ScrollUp));

    assert!(matches!(
        map_key(key(KeyCode::PageDown)),
        Action::ScrollDown
    ));

    assert!(matches!(
        map_key(key(KeyCode::Char('t'))),
        Action::KillFocused
    ));

    assert!(matches!(
        map_key(key(KeyCode::Char('r'))),
        Action::RestartFocused
    ));
}

#[test]
fn unknown_key_is_noop() {
    assert!(matches!(map_key(key(KeyCode::Char('z'))), Action::Noop));
}

#[test]
fn other_keys_and_uppercase_are_noop() {
    assert!(matches!(map_key(key(KeyCode::Other)), Action::Noop));
    assert!(matches!(map_key(key(KeyCode::Char('Q'))), Action::Noop));
    assert!(matches!(map_key(key(KeyCode::Char('x'))), Action::Noop));
}

#[test]
fn scroll_step_is_three_lines() {
    assert_eq!(SCROLL_STEP, 3);
}
