//! The decisions of the main loop: what a user action or a loop input does to
//! the state, and which task work the caller has to carry out.
use vstd::prelude::*;

use crate::action::{action_for, map_key, Action, KeyEvent, SCROLL_STEP};
use crate::config::ServiceConfig;
use crate::event::{event_service, Event};
use crate::state::{
    applied_at, can_move_focus, first_named, next_focus, prev_focus, scrolled_down, scrolled_up,
    status_set, AppState, ServiceStatus,
};

verus! {

/// Task work that a decision leaves to the caller, who owns the service tasks.
#[derive(Debug)]
pub enum Effect {
    /// Nothing to do.
    Nothing,
    /// Draw the dashboard.
    Redraw,
    /// Abort the task of the service at `index`.
    AbortTask { index: usize },
    /// Start the service at `index` again with `config`, first aborting its
    /// current task when `abort_old` is set; then report the outcome with
    /// `finish_respawn`.
    Respawn { index: usize, config: ServiceConfig, abort_old: bool },
}

/// One thing the main loop waits for.
pub enum LoopInput {
    /// The redraw timer fired.
    Tick,
    /// The user pressed a key.
    Key(KeyEvent),
    /// A service reported an event.
    Process(Event),
}

/// Whether `action` can be carried out on `s` without overflowing `usize`.
pub open spec fn action_allowed(s: AppState, action: Action) -> bool {
    &&& (action == Action::NextService && s.services@.len() > 0) ==> s.focused < usize::MAX
    &&& action == Action::PrevService ==> can_move_focus(s)
}

/// What `action` does to `before` (giving `after`) and which task work it
/// asks for, where `task_count` tasks are running, one per service index.
pub open spec fn action_outcome(
    before: AppState,
    task_count: usize,
    action: Action,
    after: AppState,
    effect: Effect,
) -> bool {
    match action {
        Action::Quit => after == (AppState { should_quit: true, ..before }) && effect
            == Effect::Nothing,
        Action::NextService => after == next_focus(before) && effect == Effect::Nothing,
        Action::PrevService => after == prev_focus(before) && effect == Effect::Nothing,
        Action::ScrollUp => after == scrolled_up(before, SCROLL_STEP) && effect == Effect::Nothing,
        Action::ScrollDown => after == scrolled_down(before, SCROLL_STEP) && effect
            == Effect::Nothing,
        Action::KillFocused => if before.focused < task_count {
            &&& status_set(before, before.focused as int, ServiceStatus::Killed, after)
            &&& effect == Effect::AbortTask { index: before.focused }
        } else {
            after == before && effect == Effect::Nothing
        },
        Action::RestartFocused => {
            &&& after == before
            &&& if before.focused < before.services@.len() {
                effect == Effect::Respawn {
                    index: before.focused,
                    config: before.services@[before.focused as int].config,
                    abort_old: before.focused < task_count,
                }
            } else {
                effect == Effect::Nothing
            }
        },
        Action::Noop => after == before && effect == Effect::Nothing,
    }
}

/// Applies a user action to the application state, where `task_count` tasks
/// are running, one per service index, and returns the task work it asks for.
pub fn apply_action(state: &mut AppState, task_count: usize, action: Action) -> (effect: Effect)
    requires
        action_allowed(*old(state), action),
    ensures
        action_outcome(*old(state), task_count, action, *final(state), effect),
{
    match action {
        // Exit the application.
        Action::Quit => {
            state.should_quit = true;
            Effect::Nothing
        },
        // Navigate between services.
        Action::NextService => {
            state.next_service();
            Effect::Nothing
        },
        Action::PrevService => {
            state.prev_service();
            Effect::Nothing
        },
        // Scroll the focused service's logs.
        Action::ScrollUp => {
            state.scroll_up(SCROLL_STEP);
            Effect::Nothing
        },
        Action::ScrollDown => {
            state.scroll_down(SCROLL_STEP);
            Effect::Nothing
        },
        Action::KillFocused => {
            // Stop only the focused service's task.
            if state.focused < task_count {
                let index = state.focused;
                state.set_status(index, ServiceStatus::Killed);
                Effect::AbortTask { index }
            } else {
                Effect::Nothing
            }
        },
        Action::RestartFocused => {
            let index = state.focused;
            // Keep the service's configuration so it can be spawned again.
            if index < state.services.len() {
                let config = state.services[index].config.clone();
                Effect::Respawn { index, config, abort_old: index < task_count }
            } else {
                Effect::Nothing
            }
        },
        // Ignore unsupported keys.
        Action::Noop => Effect::Nothing,
    }
}

/// How recording the outcome of restarting the service at `index` changes
/// `before` into `after`: it is starting again, or failed with the error that
/// spawning it gave.
pub open spec fn respawn_outcome(
    before: AppState,
    index: int,
    outcome: Result<(), String>,
    after: AppState,
) -> bool {
    match outcome {
        Ok(()) => status_set(before, index, ServiceStatus::Starting, after),
        Err(error) => status_set(before, index, ServiceStatus::Failed { error }, after),
    }
}

/// What one input of the main loop does to `before` (giving `after`) and which
/// work it asks for.
pub open spec fn step_outcome(
    before: AppState,
    task_count: usize,
    input: LoopInput,
    after: AppState,
    effect: Effect,
) -> bool {
    match input {
        LoopInput::Tick => after == before && effect == Effect::Redraw,
        LoopInput::Key(key) => action_outcome(
            before,
            task_count,
            action_for(key.code),
            after,
            effect,
        ),
        LoopInput::Process(event) => {
            &&& applied_at(
                before,
                first_named(before.services@, event_service(event)@) as int,
                event,
                after,
            )
            &&& effect == Effect::Nothing
        },
    }
}

/// Records how restarting the service at `index` went: starting again, or
/// failed with the error that spawning it gave.
pub fn finish_respawn(state: &mut AppState, index: usize, outcome: Result<(), String>)
    ensures
        respawn_outcome(*old(state), index as int, outcome, *final(state)),
{
    match outcome {
        Ok(()) => state.set_status(index, ServiceStatus::Starting),
        Err(error) => state.set_status(index, ServiceStatus::Failed { error }),
    }
}

/// Handles one input of the main loop: a tick asks for a redraw, a key press
/// is carried out as its action, and a process event is applied to the state.
pub fn step(state: &mut AppState, task_count: usize, input: LoopInput) -> (effect: Effect)
    requires
        input matches LoopInput::Key(key) ==> action_allowed(*old(state), action_for(key.code)),
    ensures
        step_outcome(*old(state), task_count, input, *final(state), effect),
{
    match input {
        // Periodically redraw the terminal.
        LoopInput::Tick => Effect::Redraw,
        // Keyboard input becomes a user action.
        LoopInput::Key(key) => apply_action(state, task_count, map_key(key)),
        // Process logs and service status changes.
        LoopInput::Process(event) => {
            state.apply(event);
            Effect::Nothing
        },
    }
}

} // verus!
