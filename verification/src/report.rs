//! The events a service task reports about the process it runs.
use vstd::prelude::*;

use crate::event::Event;

verus! {

/// The event announcing that the process of service `name` started, with its
/// PID, or PID 0 when the process has none to report.
pub open spec fn start_event_of(name: String, pid: Option<u32>) -> Event {
    Event::ProcessStarted {
        service: name,
        pid: match pid {
            Some(p) => p,
            None => 0,
        },
    }
}

/// The event reporting how waiting for the process of service `name` ended:
/// its exit code (none when a signal ended it), or the error that waiting gave.
pub open spec fn finish_event_of(name: String, outcome: Result<Option<i32>, String>) -> Event {
    match outcome {
        Ok(code) => Event::ProcessExited { service: name, code },
        Err(error) => Event::ProcessFailed { service: name, error },
    }
}

/// The event announcing that the process of service `name` started, with its
/// PID, or PID 0 when the process has none to report.
pub fn started_event(name: &String, pid: Option<u32>) -> (event: Event)
    ensures
        event == start_event_of(*name, pid),
{
    Event::ProcessStarted { service: name.clone(), pid: pid.unwrap_or(0) }
}

/// The event reporting how waiting for the process of service `name` ended:
/// its exit code (none when a signal ended it), or the error that waiting gave.
pub fn finished_event(name: String, outcome: Result<Option<i32>, String>) -> (event: Event)
    ensures
        event == finish_event_of(name, outcome),
{
    match outcome {
        Ok(code) => Event::ProcessExited { service: name, code },
        Err(error) => Event::ProcessFailed { service: name, error },
    }
}

/// The step of managing a process that went wrong.
#[derive(Debug, Clone, Copy, PartialEq, Eq)]
pub enum ProcessStep {
    /// Starting the process.
    Spawn,
    /// Waiting for it to finish.
    Wait,
    /// Signalling its process group.
    Signal,
    /// Stopping it.
    Stop,
}

/// The start of the message for a failed step, up to the service name.
pub open spec fn failure_prefix(step: ProcessStep) -> Seq<char> {
    match step {
        ProcessStep::Spawn => "failed to spawn child process: '"@,
        ProcessStep::Wait => "failed to wait for child process: '"@,
        ProcessStep::Signal => "failed to signal process group for '"@,
        ProcessStep::Stop => "failed to stop '"@,
    }
}

/// The message reporting that `step` failed for service `name`, with the
/// system's description `detail` of the error.
pub open spec fn failure_text(step: ProcessStep, name: Seq<char>, detail: Seq<char>) -> Seq<char> {
    failure_prefix(step) + name + "': "@ + detail
}

/// The message reporting that `step` failed for service `name`, with the
/// system's description `detail` of the error.
pub fn failure_message(step: ProcessStep, name: &str, detail: &str) -> (message: String)
    ensures
        message@ == failure_text(step, name@, detail@),
{
    let mut message = match step {
        ProcessStep::Spawn => String::from_str("failed to spawn child process: '"),
        ProcessStep::Wait => String::from_str("failed to wait for child process: '"),
        ProcessStep::Signal => String::from_str("failed to signal process group for '"),
        ProcessStep::Stop => String::from_str("failed to stop '"),
    };
    message.append(name);
    message.append("': ");
    message.append(detail);
    message
}

} // verus!
