//! What a service task reports: its events, its error messages, and the
//! target it signals.
use vstd::prelude::*;

use crate::event::{event_service, Event};
use crate::process_group::group_target_of;
use crate::report::{failure_prefix, failure_text, finish_event_of, start_event_of, ProcessStep};

verus! {

/// The start event names the service and carries the PID, or 0 when there is
/// none; the end event is an exit with the process's code when waiting worked
/// and a failure with the error otherwise, naming the same service.
pub proof fn law_reported_events(
    name: String,
    pid: Option<u32>,
    outcome: Result<Option<i32>, String>,
)
    ensures
        start_event_of(name, pid) matches Event::ProcessStarted { service, pid: p } && service
            == name && (pid matches Some(q) ==> p == q) && (pid is None ==> p == 0),
        outcome matches Ok(code) ==> finish_event_of(name, outcome) == (Event::ProcessExited {
            service: name,
            code,
        }),
        outcome matches Err(error) ==> finish_event_of(name, outcome) == (Event::ProcessFailed {
            service: name,
            error,
        }),
{
}

/// Each failure message says what failed, names the service in quotes, and
/// ends with the system's description of the error.
pub proof fn law_failure_messages(name: Seq<char>, detail: Seq<char>)
    ensures
        failure_text(ProcessStep::Spawn, name, detail) == "failed to spawn child process: '"@
            + name + "': "@ + detail,
        failure_text(ProcessStep::Wait, name, detail) == "failed to wait for child process: '"@
            + name + "': "@ + detail,
        failure_text(ProcessStep::Signal, name, detail)
            == "failed to signal process group for '"@ + name + "': "@ + detail,
        failure_text(ProcessStep::Stop, name, detail) == "failed to stop '"@ + name + "': "@
            + detail,
{
}

/// Every event names the service it is about.
pub proof fn law_event_service(event: Event)
    ensures
        match event {
            Event::Log { service, .. } => event_service(event) == service,
            Event::ProcessStarted { service, .. } => event_service(event) == service,
            Event::ProcessExited { service, .. } => event_service(event) == service,
            Event::ProcessFailed { service, .. } => event_service(event) == service,
        },
{
}

/// The group target of a PID up to `i32::MAX` is the PID negated; a larger PID
/// wraps when read as an `i32`, so its target is `2^32 - pid`.
pub proof fn law_group_target(pid: u32)
    ensures
        pid <= 0x7fff_ffff ==> group_target_of(pid) == -(pid as int),
        pid >= 0x8000_0000 ==> group_target_of(pid) == 0x1_0000_0000 - pid,
{
    if pid >= 0x8000_0000 {
        assert((pid as i32) as int == pid as int - 0x1_0000_0000) by (bit_vector)
            requires
                pid >= 0x8000_0000u32,
        ;
    } else {
        assert((pid as i32) as int == pid as int) by (bit_vector)
            requires
                pid <= 0x7fff_ffffu32,
        ;
    }
}

/// The fixed numbers of the dashboard: 1000 log lines kept per service, 3
/// lines per scroll step, and service names padded to 12 characters.
pub proof fn law_constants()
    ensures
        crate::supervisor::DEFAULT_LOG_CAPACITY == 1000,
        crate::action::SCROLL_STEP == 3,
        crate::view::NAME_WIDTH == 12,
{
}

} // verus!
