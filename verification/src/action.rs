//! Keyboard actions and key mapping.
use vstd::prelude::*;

verus! {

/// The key of a key press, as far as the key map tells keys apart.
#[derive(Debug, Clone, Copy, PartialEq, Eq)]
pub enum KeyCode {
    /// A character key.
    Char(char),
    Esc,
    Up,
    Down,
    PageUp,
    PageDown,
    /// Any other key.
    Other,
}

/// A key press.
#[derive(Debug, Clone, Copy, PartialEq, Eq)]
pub struct KeyEvent {
    pub code: KeyCode,
}

/// Actions that can be triggered by the user through the keyboard.
#[derive(Debug, Clone, Copy)]
pub enum Action {
    Quit,
    NextService,
    PrevService,
    ScrollUp,
    ScrollDown,
    KillFocused,
    RestartFocused,
    Noop,
}

/// Number of log lines moved by each scroll action.
pub const SCROLL_STEP: usize = 3;

/// The action bound to a key: `q`/Esc quit, `j`/Down and `k`/Up move between
/// services, PageUp/PageDown scroll, `t` kills and `r` restarts the focused
/// service; every other key does nothing.
pub open spec fn action_for(code: KeyCode) -> Action {
    match code {
        KeyCode::Char('q') | KeyCode::Esc => Action::Quit,
        KeyCode::Down | KeyCode::Char('j') => Action::NextService,
        KeyCode::Up | KeyCode::Char('k') => Action::PrevService,
        KeyCode::PageUp => Action::ScrollUp,
        KeyCode::PageDown => Action::ScrollDown,
        KeyCode::Char('t') => Action::KillFocused,
        KeyCode::Char('r') => Action::RestartFocused,
        _ => Action::Noop,
    }
}

/// Converts a terminal key press into an application-level action.
pub fn map_key(key: KeyEvent) -> (action: Action)
    ensures
        action == action_for(key.code),
{
    match key.code {
        // Quit with 'q' or Escape.
        KeyCode::Char('q') | KeyCode::Esc => Action::Quit,
        // Move between services.
        KeyCode::Down | KeyCode::Char('j') => Action::NextService,
        KeyCode::Up | KeyCode::Char('k') => Action::PrevService,
        // Scroll through the focused service's logs.
        KeyCode::PageUp => Action::ScrollUp,
        KeyCode::PageDown => Action::ScrollDown,
        // Kill or restart the focused service.
        KeyCode::Char('t') => Action::KillFocused,
        KeyCode::Char('r') => Action::RestartFocused,
        // Ignore unsupported keys.
        _ => Action::Noop,
    }
}

} // verus!
