//! Values that the platform's service manager reports or accepts.
use vstd::prelude::*;

verus! {

/// The state that the service manager reports for a service.
#[derive(Debug, Clone, Copy, PartialEq, Eq, Structural)]
pub enum ServiceState {
    Stopped,
    StartPending,
    StopPending,
    Running,
    ContinuePending,
    PausePending,
    Paused,
}

/// True when a start request is already under way or done.
pub open spec fn is_starting_or_running(s: ServiceState) -> bool {
    s == ServiceState::StartPending || s == ServiceState::Running
}

/// True when a stop request is already under way or done.
pub open spec fn is_stopping_or_stopped(s: ServiceState) -> bool {
    s == ServiceState::StopPending || s == ServiceState::Stopped
}

} // verus!
