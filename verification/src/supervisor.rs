//! The state that a run of the supervisor starts from.
use vstd::prelude::*;

use crate::config::Config;
use crate::state::{is_initial, AppState};

verus! {

/// Maximum number of log lines stored for each service.
pub const DEFAULT_LOG_CAPACITY: usize = 1000;

/// The initial state for the services of `config`: all starting, each keeping
/// its latest `DEFAULT_LOG_CAPACITY` log lines.
pub fn initial_state(config: &Config) -> (state: AppState)
    ensures
        is_initial(config.services@, DEFAULT_LOG_CAPACITY, state),
{
    AppState::new(config.services.as_slice(), DEFAULT_LOG_CAPACITY)
}

} // verus!
