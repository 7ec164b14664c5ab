//! Events sent from process management to the application state.
use vstd::prelude::*;

use std::time::Instant;

verus! {

/// `std::time::Instant`, carried through events as an opaque timestamp.
#[verifier::external_type_specification]
#[verifier::external_body]
pub struct ExInstant(Instant);

/// `Instant::clone`: `Instant` is `Copy`, so a clone is the same instant.
pub assume_specification[ <Instant as Clone>::clone ](at: &Instant) -> (r: Instant)
    ensures
        r == *at,
;

/// Identifies which output stream produced a log line.
#[derive(Debug, Clone, Copy, PartialEq, Eq)]
pub enum StreamKind {
    Stdout,
    Stderr,
}

/// Events sent from process management to the application state.
#[derive(Debug, Clone)]
pub enum Event {
    /// A new line of output from a service.
    Log { service: String, stream: StreamKind, line: String, at: Instant },
    /// A service process was successfully started.
    ProcessStarted { service: String, pid: u32 },
    /// A service process has exited.
    ProcessExited { service: String, code: Option<i32> },
    /// An error occurred while managing the process.
    ProcessFailed { service: String, error: String },
}

/// The name of the service that an event is about.
pub open spec fn event_service(e: Event) -> String {
    match e {
        Event::Log { service, .. } => service,
        Event::ProcessStarted { service, .. } => service,
        Event::ProcessExited { service, .. } => service,
        Event::ProcessFailed { service, .. } => service,
    }
}

} // verus!
