//! Application and service state, and how process events change it.
use vstd::prelude::*;

use crate::config::ServiceConfig;
use crate::event::{event_service, Event};
use crate::log_buffer::{pushed, LogBuffer, LogLine};

verus! {

/// Represents the current lifecycle state of a service.
#[derive(Debug, Clone)]
pub enum ServiceStatus {
    /// Process is being started.
    Starting,
    /// Process is running with its PID.
    Running { pid: u32 },
    /// Process exited normally.
    Exited { code: Option<i32> },
    /// Process exited with a non-zero code.
    Crashed { code: Option<i32> },
    /// An error occurred while managing the process.
    Failed { error: String },
    /// Process was explicitly stopped by the user.
    Killed,
}

/// Stores the configuration, status, and logs for one service.
pub struct ServiceState {
    pub config: ServiceConfig,
    pub status: ServiceStatus,
    pub logs: LogBuffer,
}

/// Holds all state required to render and control the TUI.
pub struct AppState {
    pub services: Vec<ServiceState>,
    /// Index of the currently focused service.
    pub focused: usize,
    /// Number of log lines scrolled up from the latest output.
    pub scroll: usize,
    /// Signals the main loop to exit.
    pub should_quit: bool,
}

/// The index of the first service named `name`, or the number of services if
/// none is.
pub open spec fn first_named(services: Seq<ServiceState>, name: Seq<char>) -> nat
    decreases services.len(),
{
    if services.len() == 0 || services[0].config.name@ == name {
        0
    } else {
        1 + first_named(services.drop_first(), name)
    }
}

/// The status a service has after `event` reaches it.
pub open spec fn status_after(status: ServiceStatus, event: Event) -> ServiceStatus {
    match event {
        Event::ProcessStarted { pid, .. } => ServiceStatus::Running { pid },
        Event::ProcessExited { code, .. } => if code == Some(0i32) {
            ServiceStatus::Exited { code }
        } else {
            ServiceStatus::Crashed { code }
        },
        Event::ProcessFailed { error, .. } => ServiceStatus::Failed { error },
        Event::Log { .. } => status,
    }
}

/// How the logs of a service change when `event` reaches it: a log event adds
/// its line, any other event leaves them as they are.
pub open spec fn logs_after(before: LogBuffer, event: Event, after: LogBuffer) -> bool {
    match event {
        Event::Log { stream, line, .. } => {
            &&& after.capacity() == before.capacity()
            &&& after@ == pushed(before@, before.capacity(), LogLine { stream, text: line })
        },
        _ => after == before,
    }
}

/// `after` is `before` with the service at `index` changed by `event`, where
/// an `index` past the last service leaves everything as it is.
pub open spec fn applied_at(before: AppState, index: int, event: Event, after: AppState) -> bool {
    &&& after.focused == before.focused
    &&& after.scroll == before.scroll
    &&& after.should_quit == before.should_quit
    &&& after.services@.len() == before.services@.len()
    &&& forall|j: int|
        0 <= j < before.services@.len() && j != index ==> after.services@[j]
            == before.services@[j]
    &&& 0 <= index < before.services@.len() ==> {
        let old_s = before.services@[index];
        let new_s = after.services@[index];
        &&& new_s.config == old_s.config
        &&& new_s.status == status_after(old_s.status, event)
        &&& logs_after(old_s.logs, event, new_s.logs)
    }
}

/// The focus points at a service, unless there are none.
pub open spec fn focus_in_range(state: AppState) -> bool {
    state.services@.len() == 0 || state.focused < state.services@.len()
}

/// The state after focus moves to the next service, wrapping around at the
/// end; moving focus shows the latest log lines again.
pub open spec fn next_focus(s: AppState) -> AppState {
    if s.services@.len() > 0 {
        AppState {
            focused: ((s.focused + 1) % (s.services@.len() as int)) as usize,
            scroll: 0,
            ..s
        }
    } else {
        s
    }
}

/// The state after focus moves to the previous service, wrapping around at
/// the beginning; moving focus shows the latest log lines again.
pub open spec fn prev_focus(s: AppState) -> AppState {
    if s.services@.len() > 0 {
        AppState {
            focused: ((s.focused + s.services@.len() - 1) % (s.services@.len() as int)) as usize,
            scroll: 0,
            ..s
        }
    } else {
        s
    }
}

/// The state after scrolling `amount` lines toward older output, saturating.
pub open spec fn scrolled_up(s: AppState, amount: usize) -> AppState {
    AppState {
        scroll: if s.scroll + amount > usize::MAX {
            usize::MAX
        } else {
            (s.scroll + amount) as usize
        },
        ..s
    }
}

/// The state after scrolling `amount` lines toward newer output, stopping at
/// the latest line.
pub open spec fn scrolled_down(s: AppState, amount: usize) -> AppState {
    AppState {
        scroll: if s.scroll < amount {
            0
        } else {
            (s.scroll - amount) as usize
        },
        ..s
    }
}

/// `after` is `before` with the status of the service at `index` replaced by
/// `status`; an `index` past the last service changes nothing.
pub open spec fn status_set(
    before: AppState,
    index: int,
    status: ServiceStatus,
    after: AppState,
) -> bool {
    &&& after.focused == before.focused
    &&& after.scroll == before.scroll
    &&& after.should_quit == before.should_quit
    &&& if 0 <= index < before.services@.len() {
        after.services@ == before.services@.update(
            index,
            ServiceState { status, ..before.services@[index] },
        )
    } else {
        after.services@ == before.services@
    }
}

/// Whether the wrapping arithmetic of a focus move stays within `usize`.
pub open spec fn can_move_focus(s: AppState) -> bool {
    s.services@.len() > 0 ==> s.focused + s.services@.len() <= usize::MAX
}

/// `state` is the starting state for these service configurations: every
/// service starting, with no logs, focus on the first and no scrolling.
pub open spec fn is_initial(configs: Seq<ServiceConfig>, log_capacity: usize, state: AppState) -> bool {
    &&& state.services@.len() == configs.len()
    &&& forall|i: int|
        0 <= i < configs.len() ==> {
            let s = #[trigger] state.services@[i];
            &&& s.config == configs[i]
            &&& s.status == ServiceStatus::Starting
            &&& s.logs@ == Seq::<LogLine>::empty()
            &&& s.logs.capacity() == log_capacity
        }
    &&& state.focused == 0
    &&& state.scroll == 0
    &&& !state.should_quit
}

proof fn lemma_first_named(services: Seq<ServiceState>, name: Seq<char>, k: int)
    requires
        0 <= k <= services.len(),
        forall|j: int| 0 <= j < k ==> (#[trigger] services[j]).config.name@ != name,
        k == services.len() || services[k].config.name@ == name,
    ensures
        first_named(services, name) == k,
    decreases k,
{
    if k > 0 {
        lemma_first_named(services.drop_first(), name, k - 1);
    }
}

impl AppState {
    /// Creates the initial application state for all configured services.
    pub fn new(configs: &[ServiceConfig], log_capacity: usize) -> (state: Self)
        ensures
            is_initial(configs@, log_capacity, state),
    {
        let mut services: Vec<ServiceState> = Vec::new();
        let mut i: usize = 0;
        while i < configs.len()
            invariant
                i <= configs@.len(),
                services@.len() == i,
                forall|j: int|
                    0 <= j < i ==> {
                        let s = #[trigger] services@[j];
                        &&& s.config == configs@[j]
                        &&& s.status == ServiceStatus::Starting
                        &&& s.logs@ == Seq::<LogLine>::empty()
                        &&& s.logs.capacity() == log_capacity
                    },
            decreases configs@.len() - i,
        {
            services.push(
                ServiceState {
                    config: configs[i].clone(),
                    status: ServiceStatus::Starting,
                    logs: LogBuffer::new(log_capacity),
                },
            );
            i = i + 1;
        }
        AppState { services, focused: 0, scroll: 0, should_quit: false }
    }

    /// Moves focus to the next service, wrapping around at the end.
    pub fn next_service(&mut self)
        requires
            old(self).services@.len() > 0 ==> old(self).focused < usize::MAX,
        ensures
            *final(self) == next_focus(*old(self)),
    {
        if self.services.len() > 0 {
            self.focused = (self.focused + 1) % self.services.len();
            self.scroll = 0;
        }
    }

    /// Moves focus to the previous service, wrapping around at the beginning.
    pub fn prev_service(&mut self)
        requires
            can_move_focus(*old(self)),
        ensures
            *final(self) == prev_focus(*old(self)),
    {
        if self.services.len() > 0 {
            self.focused = (self.focused + self.services.len() - 1) % self.services.len();
            self.scroll = 0;
        }
    }

    /// Scrolls toward older log lines.
    pub fn scroll_up(&mut self, amount: usize)
        ensures
            *final(self) == scrolled_up(*old(self), amount),
    {
        self.scroll = self.scroll.saturating_add(amount);
    }

    /// Scrolls toward newer log lines, stopping at the latest output.
    pub fn scroll_down(&mut self, amount: usize)
        ensures
            *final(self) == scrolled_down(*old(self), amount),
    {
        self.scroll = self.scroll.saturating_sub(amount);
    }

    /// Directly changes a service's status.
    pub fn set_status(&mut self, index: usize, status: ServiceStatus)
        ensures
            status_set(*old(self), index as int, status, *final(self)),
    {
        if index < self.services.len() {
            self.services[index].status = status;
        }
    }

    /// Applies a process event to the application state: the first service
    /// with the event's name gets its new status or log line.
    pub fn apply(&mut self, event: Event)
        ensures
            applied_at(
                *old(self),
                first_named(old(self).services@, event_service(event)@) as int,
                event,
                *final(self),
            ),
    {
        let ghost index = first_named(self.services@, event_service(event)@) as int;
        match event {
            // The process successfully started.
            Event::ProcessStarted { service, pid } => {
                if let Some(s) = self.find_mut(service.as_str()) {
                    s.status = ServiceStatus::Running { pid };
                }
            },
            // Add new output to the service's log buffer.
            Event::Log { service, stream, line, .. } => {
                if let Some(s) = self.find_mut(service.as_str()) {
                    s.logs.push(LogLine { stream, text: line });
                }
            },
            // A zero exit code means success; anything else is treated as a crash.
            Event::ProcessExited { service, code } => {
                if let Some(s) = self.find_mut(service.as_str()) {
                    s.status = match code {
                        Some(0) => ServiceStatus::Exited { code },
                        _ => ServiceStatus::Crashed { code },
                    };
                }
            },
            // Record process-management errors.
            Event::ProcessFailed { service, error } => {
                if let Some(s) = self.find_mut(service.as_str()) {
                    s.status = ServiceStatus::Failed { error };
                }
            },
        }
    }

    /// Finds the first service with the given name and returns a mutable
    /// reference to it.
    pub fn find_mut<'a>(&'a mut self, name: &str) -> (found: Option<&'a mut ServiceState>)
        ensures
            final(self).focused == old(self).focused,
            final(self).scroll == old(self).scroll,
            final(self).should_quit == old(self).should_quit,
            ({
                let i = first_named(old(self).services@, name@);
                match found {
                    Some(s) => {
                        &&& i < old(self).services@.len()
                        &&& *s == old(self).services@[i as int]
                        &&& final(self).services@ == old(self).services@.update(
                            i as int,
                            *final(s),
                        )
                    },
                    None => {
                        &&& i == old(self).services@.len()
                        &&& final(self).services@ == old(self).services@
                    },
                }
            }),
    {
        let target = String::from_str(name);
        let mut i: usize = 0;
        while i < self.services.len()
            invariant
                i <= self.services@.len(),
                self.services@ == old(self).services@,
                self.focused == old(self).focused,
                self.scroll == old(self).scroll,
                self.should_quit == old(self).should_quit,
                target@ == name@,
                forall|j: int|
                    0 <= j < i ==> (#[trigger] self.services@[j]).config.name@ != name@,
            decreases self.services@.len() - i,
        {
            if self.services[i].config.name == target {
                proof {
                    lemma_first_named(self.services@, name@, i as int);
                }
                let s = &mut self.services[i];
                return Some(s);
            }
            i = i + 1;
        }
        proof {
            lemma_first_named(self.services@, name@, i as int);
        }
        None
    }
}

} // verus!
