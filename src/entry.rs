//! The service's own entry point: it registers for control notifications,
//! runs the managed application until a stop notification arrives, and
//! reports the final status with its exit code. A host performs each
//! [`RunAction`] and hands back what happened as a [`RunEvent`].
use vstd::prelude::*;
use crate::state::ServiceState;
use crate::control::PlatformError;

verus! {

/// The exit code reported once the managed application stopped cleanly.
pub const NO_ERROR: u32 = 0;

/// The exit code reported when the managed application failed to stop.
pub const ERROR_FAIL_SHUTDOWN: u32 = 351;

/// A notification from the service manager to the running service.
#[derive(Debug, Clone, Copy, PartialEq, Eq, Structural)]
pub enum ServiceControl {
    Interrogate,
    Stop,
    Continue,
    Pause,
    Shutdown,
    Other,
}

/// The answer given to a notification.
#[derive(Debug, Clone, Copy, PartialEq, Eq, Structural)]
pub enum HandlerResult {
    NoError,
    NotImplemented,
}

/// The exit code that a stopped service reports.
#[derive(Debug, Clone, Copy, PartialEq, Eq, Structural)]
pub enum ServiceExitCode {
    Win32(u32),
    ServiceSpecific(u32),
}

/// A status report to the service manager, for a service running in its own
/// process.
#[derive(Debug, Clone, Copy, PartialEq, Eq, Structural)]
pub struct ServiceStatus {
    pub current_state: ServiceState,
    /// Whether a stop notification is accepted.
    pub accepts_stop: bool,
    pub exit_code: ServiceExitCode,
    pub checkpoint: u32,
    pub wait_hint_ms: u64,
}

/// Answers a notification without blocking: interrogation is acknowledged
/// as it is, a stop is acknowledged and also raises the shutdown signal (the
/// second result), and anything else is not implemented.
pub fn handle_control(event: ServiceControl) -> (r: (HandlerResult, bool))
    ensures
        r.1 == (event == ServiceControl::Stop),
        r.0 == (if event == ServiceControl::Interrogate || event == ServiceControl::Stop {
            HandlerResult::NoError
        } else {
            HandlerResult::NotImplemented
        }),
{
    match event {
        ServiceControl::Interrogate => (HandlerResult::NoError, false),
        ServiceControl::Stop => (HandlerResult::NoError, true),
        _ => (HandlerResult::NotImplemented, false),
    }
}

/// The report made once the managed application runs: stop is accepted.
pub open spec fn running_status() -> ServiceStatus {
    ServiceStatus {
        current_state: ServiceState::Running,
        accepts_stop: true,
        exit_code: ServiceExitCode::Win32(NO_ERROR),
        checkpoint: 0,
        wait_hint_ms: 0,
    }
}

/// The last report: stopped, accepting nothing, with `code`.
pub open spec fn stopped_status(code: ServiceExitCode) -> ServiceStatus {
    ServiceStatus {
        current_state: ServiceState::Stopped,
        accepts_stop: false,
        exit_code: code,
        checkpoint: 0,
        wait_hint_ms: 0,
    }
}

/// The exit code for the outcome of stopping the managed application.
pub open spec fn shutdown_exit_code(stopped_cleanly: bool) -> ServiceExitCode {
    if stopped_cleanly {
        ServiceExitCode::Win32(NO_ERROR)
    } else {
        ServiceExitCode::Win32(ERROR_FAIL_SHUTDOWN)
    }
}

/// What the host does next.
#[derive(Debug)]
pub enum RunAction {
    /// Register the notification handler with the service manager.
    Register,
    /// Prepare the managed application.
    Prepare,
    ReportStatus(ServiceStatus),
    /// Wait for the shutdown signal.
    AwaitSignal,
    /// Stop the managed application and wait for it.
    StopTopology,
    /// Nothing to do until the next event.
    Wait,
    /// Return from the entry point with this result.
    Exit(Result<(), PlatformError>),
}

/// What happened.
#[derive(Debug, Clone)]
pub enum RunEvent {
    /// The last service-manager call succeeded.
    Done,
    /// The last service-manager call failed.
    Failed(PlatformError),
    Prepared,
    /// Preparing the managed application failed with this code.
    PrepareFailed(u32),
    /// The shutdown signal was raised.
    StopSignal,
    /// The managed application stopped, cleanly or not.
    TopologyStopped(bool),
}

/// What the entry point waits for.
#[derive(Debug, Clone, Copy, PartialEq, Eq, Structural)]
pub enum RunPhase {
    Registering,
    Preparing,
    ReportingRunning,
    AwaitingSignal,
    StoppingTopology,
    ReportingStopped,
    Exited,
}

/// The entry point in progress.
#[derive(Debug, Clone, Copy, PartialEq, Eq, Structural)]
pub struct ServiceRun {
    pub phase: RunPhase,
    /// The shutdown signal was raised before anyone waited for it.
    pub stop_requested: bool,
}

/// Whether `event` can happen while the entry point is in `phase`. The
/// shutdown signal can come at any time before the end.
pub open spec fn event_fits(phase: RunPhase, event: RunEvent) -> bool {
    match phase {
        RunPhase::Exited => false,
        RunPhase::Preparing => event is Prepared || event is PrepareFailed || event is StopSignal,
        RunPhase::AwaitingSignal => event is StopSignal,
        RunPhase::StoppingTopology => event is TopologyStopped || event is StopSignal,
        _ => event is Done || event is Failed || event is StopSignal,
    }
}

/// One event handed to the entry point: its next value and the next action.
pub open spec fn run_step(s: ServiceRun, event: RunEvent) -> (ServiceRun, RunAction) {
    match event {
        RunEvent::StopSignal => if s.phase == RunPhase::AwaitingSignal {
            (ServiceRun { phase: RunPhase::StoppingTopology, ..s }, RunAction::StopTopology)
        } else {
            (ServiceRun { stop_requested: true, ..s }, RunAction::Wait)
        },
        RunEvent::Failed(e) => (ServiceRun { phase: RunPhase::Exited, ..s }, RunAction::Exit(Err(e))),
        RunEvent::Prepared => (
            ServiceRun { phase: RunPhase::ReportingRunning, ..s },
            RunAction::ReportStatus(running_status()),
        ),
        RunEvent::PrepareFailed(c) => (
            ServiceRun { phase: RunPhase::ReportingStopped, ..s },
            RunAction::ReportStatus(stopped_status(ServiceExitCode::ServiceSpecific(c))),
        ),
        RunEvent::TopologyStopped(ok) => (
            ServiceRun { phase: RunPhase::ReportingStopped, ..s },
            RunAction::ReportStatus(stopped_status(shutdown_exit_code(ok))),
        ),
        RunEvent::Done => match s.phase {
            RunPhase::Registering => (ServiceRun { phase: RunPhase::Preparing, ..s }, RunAction::Prepare),
            RunPhase::ReportingRunning => if s.stop_requested {
                (ServiceRun { phase: RunPhase::StoppingTopology, ..s }, RunAction::StopTopology)
            } else {
                (ServiceRun { phase: RunPhase::AwaitingSignal, ..s }, RunAction::AwaitSignal)
            },
            _ => (ServiceRun { phase: RunPhase::Exited, ..s }, RunAction::Exit(Ok(()))),
        },
    }
}

impl ServiceRun {
    /// The entry point as it starts: it registers first.
    pub fn begin() -> (r: (ServiceRun, RunAction))
        ensures
            r.0 == (ServiceRun { phase: RunPhase::Registering, stop_requested: false }),
            r.1 is Register,
    {
        (ServiceRun { phase: RunPhase::Registering, stop_requested: false }, RunAction::Register)
    }

    /// Hands the entry point what happened, and gives its next value and the
    /// next action. Running is reported only once the application is
    /// prepared; a failed preparation goes straight to the stopped report
    /// with its code; a shutdown signal raised early is kept, not lost.
    pub fn step(self, event: RunEvent) -> (r: (ServiceRun, RunAction))
        requires
            event_fits(self.phase, event),
        ensures
            r == run_step(self, event),
            r.1 matches RunAction::ReportStatus(st) && st.current_state == ServiceState::Running
                ==> (self.phase == RunPhase::Preparing && event is Prepared),
            self.phase == RunPhase::Preparing && event is PrepareFailed ==> r.1 == RunAction::ReportStatus(
                stopped_status(ServiceExitCode::ServiceSpecific(event->PrepareFailed_0)),
            ),
            r.1 is StopTopology ==> (self.stop_requested || event is StopSignal),
    {
        match event {
            RunEvent::StopSignal => if self.phase == RunPhase::AwaitingSignal {
                (ServiceRun { phase: RunPhase::StoppingTopology, ..self }, RunAction::StopTopology)
            } else {
                (ServiceRun { stop_requested: true, ..self }, RunAction::Wait)
            },
            RunEvent::Failed(e) => (ServiceRun { phase: RunPhase::Exited, ..self }, RunAction::Exit(Err(e))),
            RunEvent::Prepared => (
                ServiceRun { phase: RunPhase::ReportingRunning, ..self },
                RunAction::ReportStatus(ServiceStatus {
                    current_state: ServiceState::Running,
                    accepts_stop: true,
                    exit_code: ServiceExitCode::Win32(NO_ERROR),
                    checkpoint: 0,
                    wait_hint_ms: 0,
                }),
            ),
            RunEvent::PrepareFailed(c) => (
                ServiceRun { phase: RunPhase::ReportingStopped, ..self },
                RunAction::ReportStatus(stopped(ServiceExitCode::ServiceSpecific(c))),
            ),
            RunEvent::TopologyStopped(ok) => {
                let code = if ok {
                    ServiceExitCode::Win32(NO_ERROR)
                } else {
                    ServiceExitCode::Win32(ERROR_FAIL_SHUTDOWN)
                };
                (ServiceRun { phase: RunPhase::ReportingStopped, ..self }, RunAction::ReportStatus(stopped(code)))
            },
            RunEvent::Done => match self.phase {
                RunPhase::Registering => (ServiceRun { phase: RunPhase::Preparing, ..self }, RunAction::Prepare),
                RunPhase::ReportingRunning => if self.stop_requested {
                    (ServiceRun { phase: RunPhase::StoppingTopology, ..self }, RunAction::StopTopology)
                } else {
                    (ServiceRun { phase: RunPhase::AwaitingSignal, ..self }, RunAction::AwaitSignal)
                },
                _ => (ServiceRun { phase: RunPhase::Exited, ..self }, RunAction::Exit(Ok(()))),
            },
        }
    }
}

/// The last status report, with `code`.
fn stopped(code: ServiceExitCode) -> (r: ServiceStatus)
    ensures
        r == stopped_status(code),
{
    ServiceStatus {
        current_state: ServiceState::Stopped,
        accepts_stop: false,
        exit_code: code,
        checkpoint: 0,
        wait_hint_ms: 0,
    }
}

/// The shutdown signal is not lost: whether it is raised before the entry
/// point begins to wait for it or after, the managed application is then
/// stopped.
pub proof fn lemma_no_lost_wakeup(s: ServiceRun)
    requires
        s.phase == RunPhase::ReportingRunning,
        !s.stop_requested,
    ensures
        ({
            let (early, _) = run_step(s, RunEvent::StopSignal);
            run_step(early, RunEvent::Done).1 is StopTopology
        }),
        ({
            let (waiting, a) = run_step(s, RunEvent::Done);
            &&& a is AwaitSignal
            &&& run_step(waiting, RunEvent::StopSignal).1 is StopTopology
        }),
{
}

} // verus!
