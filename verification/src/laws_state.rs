//! What each change of the dashboard state does, stated field by field in
//! terms of the state before it: focus moves, scrolling, process events and
//! user actions.
use vstd::prelude::*;

use crate::action::{action_for, Action, KeyCode, SCROLL_STEP};
use crate::config::ServiceConfig;
use crate::control::{action_outcome, respawn_outcome, step_outcome, Effect, LoopInput};
use crate::event::Event;
use crate::laws::latest;
use crate::log_buffer::LogLine;
use crate::state::{
    applied_at, first_named, is_initial, next_focus, prev_focus, scrolled_down, scrolled_up,
    status_set, AppState, ServiceState, ServiceStatus,
};
use crate::event::event_service;

verus! {

/// An event goes to the first service with its name: `first_named` is the
/// index of a service with that name that no earlier service has, or the
/// number of services when no service has it.
pub proof fn law_first_named_finds_first(services: Seq<ServiceState>, name: Seq<char>)
    ensures
        first_named(services, name) <= services.len(),
        first_named(services, name) < services.len() ==> services[first_named(
            services,
            name,
        ) as int].config.name@ == name,
        forall|j: int|
            0 <= j < first_named(services, name) ==> (#[trigger] services[j]).config.name@
                != name,
    decreases services.len(),
{
    if services.len() > 0 && services[0].config.name@ != name {
        law_first_named_finds_first(services.drop_first(), name);
        assert forall|j: int| 0 <= j < first_named(services, name) implies (
        #[trigger] services[j]).config.name@ != name by {
            if j > 0 {
                assert(services[j] == services.drop_first()[j - 1]);
            }
        }
        if first_named(services, name) < services.len() {
            assert(services[first_named(services, name) as int] == services.drop_first()[
                first_named(services.drop_first(), name) as int]);
        }
    }
}

/// Moving focus forward goes to the next service and from the last one to the
/// first; moving it back goes to the previous service and from the first one to
/// the last. Either move shows the live tail of the logs (scroll 0) and changes
/// nothing else. Without services neither move changes anything.
pub proof fn law_focus_moves(s: AppState)
    ensures
        s.services@.len() > 0 ==> {
            let n = s.services@.len() as int;
            let next = next_focus(s);
            let prev = prev_focus(s);
            &&& next.focused as int == (s.focused as int + 1) % n
            &&& next.scroll == 0
            &&& next.services == s.services
            &&& next.should_quit == s.should_quit
            &&& prev.focused as int == (s.focused as int + n - 1) % n
            &&& prev.scroll == 0
            &&& prev.services == s.services
            &&& prev.should_quit == s.should_quit
        },
        s.services@.len() > 0 && s.focused as int == s.services@.len() - 1 ==> next_focus(
            s,
        ).focused == 0,
        s.services@.len() > 0 && s.focused == 0 ==> prev_focus(s).focused as int
            == s.services@.len() - 1,
        s.services@.len() == 0 ==> next_focus(s) == s && prev_focus(s) == s,
{
    let n = s.services@.len() as int;
    assert(s.services.len() == n);
    if n > 0 {
        let f = s.focused as int;
        assert(0 <= (f + 1) % n < n);
        assert(0 <= (f + n - 1) % n < n);
        if f == n - 1 {
            vstd::arithmetic::div_mod::lemma_mod_self_0(n);
        }
        if f == 0 {
            vstd::arithmetic::div_mod::lemma_small_mod((n - 1) as nat, n as nat);
        }
    }
}

/// Scrolling up adds `amount` lines to the scroll offset, stopping at the
/// largest `usize`; scrolling down takes them off, stopping at 0 (the live
/// tail). Neither changes anything but the scroll offset.
pub proof fn law_scroll_moves(s: AppState, amount: usize)
    ensures
        scrolled_up(s, amount).scroll as int == if s.scroll + amount <= usize::MAX {
            s.scroll + amount
        } else {
            usize::MAX as int
        },
        scrolled_down(s, amount).scroll as int == if s.scroll >= amount {
            s.scroll - amount
        } else {
            0
        },
        scrolled_up(s, amount) == (AppState { scroll: scrolled_up(s, amount).scroll, ..s }),
        scrolled_down(s, amount) == (AppState { scroll: scrolled_down(s, amount).scroll, ..s }),
{
}

/// What a process event does to the service it reaches: a start makes it
/// running with the event's PID, an exit with code 0 makes it exited and any
/// other exit crashed (with the code), a failure records the error, and a log
/// line is added after the lines kept so far, of which the buffer keeps the
/// latest `capacity`. Only a log event changes a service's logs (lines and
/// capacity), only other events change its status, its configuration never
/// changes, and no other service changes.
pub proof fn law_apply_event(before: AppState, index: int, event: Event, after: AppState)
    requires
        applied_at(before, index, event, after),
        0 <= index < before.services@.len(),
        before.services@[index].logs@.len() <= before.services@[index].logs.capacity(),
    ensures
        ({
            let old_s = before.services@[index];
            let new_s = after.services@[index];
            &&& new_s.config == old_s.config
            &&& match event {
                Event::ProcessStarted { pid, .. } => {
                    &&& new_s.status == ServiceStatus::Running { pid }
                    &&& new_s.logs == old_s.logs
                },
                Event::ProcessExited { code, .. } => {
                    &&& code == Some(0i32) ==> new_s.status == ServiceStatus::Exited { code }
                    &&& code != Some(0i32) ==> new_s.status == ServiceStatus::Crashed { code }
                    &&& new_s.logs == old_s.logs
                },
                Event::ProcessFailed { error, .. } => {
                    &&& new_s.status == ServiceStatus::Failed { error }
                    &&& new_s.logs == old_s.logs
                },
                Event::Log { stream, line, .. } => {
                    &&& new_s.status == old_s.status
                    &&& new_s.logs.capacity() == old_s.logs.capacity()
                    &&& new_s.logs@ == latest(
                        old_s.logs@.push(LogLine { stream, text: line }),
                        old_s.logs.capacity(),
                    )
                },
            }
        }),
        forall|j: int|
            0 <= j < before.services@.len() && j != index ==> after.services@[j]
                == before.services@[j],
        after.services@.len() == before.services@.len(),
        after.focused == before.focused,
        after.scroll == before.scroll,
        after.should_quit == before.should_quit,
{
    let old_s = before.services@[index];
    let new_s = after.services@[index];
    match event {
        Event::Log { stream, line, .. } => {
            let l = old_s.logs@;
            let x = LogLine { stream, text: line };
            let cap = old_s.logs.capacity();
            if cap == 0 {
                assert(latest(l.push(x), cap) =~= Seq::<LogLine>::empty());
            } else if l.len() >= cap {
                assert(l.drop_first().push(x) =~= latest(l.push(x), cap));
            } else {
                assert(l.push(x) =~= latest(l.push(x), cap));
            }
        },
        _ => {},
    }
}

/// What each user action does, with `task_count` service tasks running:
/// - `Quit` asks the loop to stop and changes nothing else;
/// - `NextService` focuses the next service, the first after the last one;
///   `PrevService` the previous one, the last before the first; both show the
///   live tail (scroll 0);
/// - `ScrollUp` and `ScrollDown` move the scroll offset by `SCROLL_STEP` lines,
///   saturating at the largest `usize` and at 0;
/// - `KillFocused` marks the focused service killed and asks to abort its task,
///   if it has one, leaving every other service as it is;
/// - `RestartFocused` changes nothing yet and asks to start the focused service
///   again with its own configuration, aborting its task first if it has one;
/// - `Noop` changes nothing.
pub proof fn law_action_effects(
    before: AppState,
    task_count: usize,
    action: Action,
    after: AppState,
    effect: Effect,
)
    requires
        action_outcome(before, task_count, action, after, effect),
    ensures
        ({
            let n = before.services@.len() as int;
            let f = before.focused as int;
            match action {
                Action::Quit => {
                    &&& after.should_quit
                    &&& after == (AppState { should_quit: true, ..before })
                    &&& effect == Effect::Nothing
                },
                Action::NextService => {
                    &&& n > 0 ==> after.focused as int == (f + 1) % n && after.scroll == 0
                        && after.services == before.services && after.should_quit
                        == before.should_quit
                    &&& n > 0 && f == n - 1 ==> after.focused == 0
                    &&& n == 0 ==> after == before
                    &&& effect == Effect::Nothing
                },
                Action::PrevService => {
                    &&& n > 0 ==> after.focused as int == (f + n - 1) % n && after.scroll == 0
                        && after.services == before.services && after.should_quit
                        == before.should_quit
                    &&& n > 0 && f == 0 ==> after.focused as int == n - 1
                    &&& n == 0 ==> after == before
                    &&& effect == Effect::Nothing
                },
                Action::ScrollUp => {
                    &&& after.scroll as int == if before.scroll + SCROLL_STEP <= usize::MAX {
                        before.scroll + SCROLL_STEP
                    } else {
                        usize::MAX as int
                    }
                    &&& after == (AppState { scroll: after.scroll, ..before })
                    &&& effect == Effect::Nothing
                },
                Action::ScrollDown => {
                    &&& after.scroll as int == if before.scroll >= SCROLL_STEP {
                        before.scroll - SCROLL_STEP
                    } else {
                        0
                    }
                    &&& after == (AppState { scroll: after.scroll, ..before })
                    &&& effect == Effect::Nothing
                },
                Action::KillFocused => if f < task_count {
                    &&& effect == Effect::AbortTask { index: before.focused }
                    &&& after.focused == before.focused && after.scroll == before.scroll
                        && after.should_quit == before.should_quit
                    &&& after.services@.len() == n
                    &&& f < n ==> after.services@[f].status == ServiceStatus::Killed
                        && after.services@[f].config == before.services@[f].config
                        && after.services@[f].logs == before.services@[f].logs
                    &&& forall|j: int|
                        0 <= j < n && j != f ==> after.services@[j] == before.services@[j]
                } else {
                    after == before && effect == Effect::Nothing
                },
                Action::RestartFocused => {
                    &&& after == before
                    &&& f < n ==> effect == Effect::Respawn {
                        index: before.focused,
                        config: before.services@[f].config,
                        abort_old: f < task_count,
                    }
                    &&& f >= n ==> effect == Effect::Nothing
                },
                Action::Noop => after == before && effect == Effect::Nothing,
            }
        }),
{
    law_focus_moves(before);
    law_scroll_moves(before, SCROLL_STEP);
}

/// The starting state has one service per configuration, in order, each
/// starting with no log lines and the given log capacity, the first service
/// focused, no scrolling, and no request to quit.
pub proof fn law_initial_state(configs: Seq<ServiceConfig>, log_capacity: usize, state: AppState)
    requires
        is_initial(configs, log_capacity, state),
    ensures
        state.services@.len() == configs.len(),
        forall|i: int|
            0 <= i < configs.len() ==> (#[trigger] state.services@[i]).config == configs[i]
                && state.services@[i].status == ServiceStatus::Starting
                && state.services@[i].logs@.len() == 0
                && state.services@[i].logs.capacity() == log_capacity,
        state.focused == 0,
        state.scroll == 0,
        !state.should_quit,
{
}

/// Setting a status replaces the status of the service at `index` and changes
/// nothing else: not its configuration or logs, no other service, and not the
/// focus, scroll or quit request. An index past the last service changes
/// nothing.
pub proof fn law_status_set(before: AppState, index: int, status: ServiceStatus, after: AppState)
    requires
        status_set(before, index, status, after),
    ensures
        after.services@.len() == before.services@.len(),
        after.focused == before.focused,
        after.scroll == before.scroll,
        after.should_quit == before.should_quit,
        0 <= index < before.services@.len() ==> after.services@[index].status == status
            && after.services@[index].config == before.services@[index].config
            && after.services@[index].logs == before.services@[index].logs,
        forall|j: int|
            0 <= j < before.services@.len() && j != index ==> after.services@[j]
                == before.services@[j],
{
}

/// After a restart, the service is starting again if spawning it worked, and
/// failed with the spawn error otherwise; nothing else changes.
pub proof fn law_respawn_outcome(
    before: AppState,
    index: int,
    outcome: Result<(), String>,
    after: AppState,
)
    requires
        respawn_outcome(before, index, outcome, after),
        0 <= index < before.services@.len(),
    ensures
        outcome is Ok ==> after.services@[index].status == ServiceStatus::Starting,
        outcome matches Err(error) ==> after.services@[index].status == (ServiceStatus::Failed {
            error,
        }),
        after.services@[index].config == before.services@[index].config,
        after.services@[index].logs == before.services@[index].logs,
        forall|j: int|
            0 <= j < before.services@.len() && j != index ==> after.services@[j]
                == before.services@[j],
        after.focused == before.focused && after.scroll == before.scroll && after.should_quit
            == before.should_quit,
{
}

/// The keys: `q` and Esc quit, `j` and Down go to the next service, `k` and Up
/// to the previous one, PageUp and PageDown scroll, `t` kills and `r` restarts
/// the focused service; every other key does nothing.
pub proof fn law_key_bindings(code: KeyCode)
    ensures
        code == KeyCode::Char('q') || code == KeyCode::Esc ==> action_for(code) == Action::Quit,
        code == KeyCode::Char('j') || code == KeyCode::Down ==> action_for(code)
            == Action::NextService,
        code == KeyCode::Char('k') || code == KeyCode::Up ==> action_for(code)
            == Action::PrevService,
        code == KeyCode::PageUp ==> action_for(code) == Action::ScrollUp,
        code == KeyCode::PageDown ==> action_for(code) == Action::ScrollDown,
        code == KeyCode::Char('t') ==> action_for(code) == Action::KillFocused,
        code == KeyCode::Char('r') ==> action_for(code) == Action::RestartFocused,
        code == KeyCode::Other ==> action_for(code) == Action::Noop,
        (code matches KeyCode::Char(c) && c != 'q' && c != 'j' && c != 'k' && c != 't' && c != 'r')
            ==> action_for(code) == Action::Noop,
{
}

/// A tick asks for a redraw and changes nothing; a key press does what its
/// action does; a process event changes the first service with its name (as
/// `law_apply_event` states) and asks for nothing.
pub proof fn law_step(
    before: AppState,
    task_count: usize,
    input: LoopInput,
    after: AppState,
    effect: Effect,
)
    requires
        step_outcome(before, task_count, input, after, effect),
    ensures
        input is Tick ==> after == before && effect == Effect::Redraw,
        input matches LoopInput::Key(key) ==> action_outcome(
            before,
            task_count,
            action_for(key.code),
            after,
            effect,
        ),
        input matches LoopInput::Process(event) ==> effect == Effect::Nothing && applied_at(
            before,
            first_named(before.services@, event_service(event)@) as int,
            event,
            after,
        ),
{
}

} // verus!
