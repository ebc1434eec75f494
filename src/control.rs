//! The five administrative actions, each a sequence of service-manager calls
//! decided one reply at a time. A host issues each [`Command`] against the
//! real service manager and hands back what it answered as a [`Reply`].
use vstd::prelude::*;
use crate::state::{ServiceState, is_starting_or_running, is_stopping_or_stopped};
use crate::poll::{Poller, PollStatus, PollStep, poll_step, poll_wake};
use crate::action::ControlAction;
use crate::wait::push_all;

verus! {

/// How long restart and uninstall wait for the service to stop, in milliseconds.
pub const STOP_TIMEOUT_MS: u64 = 10000;

/// How often restart and uninstall look at the service while waiting, in
/// milliseconds.
pub const STOP_POLL_INTERVAL_MS: u64 = 1000;

/// Rights asked for on one service.
#[derive(Debug, Clone, Copy, PartialEq, Eq, Structural)]
pub struct Access {
    pub query_status: bool,
    pub start: bool,
    pub stop: bool,
    pub delete: bool,
}

/// Rights asked for on the service manager itself.
#[derive(Debug, Clone, Copy, PartialEq, Eq, Structural)]
pub struct ManagerAccess {
    pub connect: bool,
    pub create_service: bool,
}

/// A failure reported by the service manager: the operating system's error
/// code where there is one, and its text.
#[derive(Debug, Clone)]
pub struct PlatformError {
    pub os_code: Option<i32>,
    pub message: String,
}

/// Why an action failed.
#[derive(Debug, Clone)]
pub enum Error {
    /// A service-manager call failed.
    Service(PlatformError),
    /// The service did not reach `expected_state` within `timeout_ms`.
    PollTimeout { state: ServiceState, expected_state: ServiceState, timeout_ms: u64 },
}

/// Something worth recording about an action's progress.
#[derive(Debug, Clone, Copy, PartialEq, Eq, Structural)]
pub enum ServiceEvent {
    DoesNotExist,
    Started { already_started: bool },
    Stopped { already_stopped: bool },
    Restarted,
    Installed,
    Uninstalled,
}

/// What the host does next.
#[derive(Debug)]
pub enum Command {
    ConnectManager(ManagerAccess),
    OpenService(Access),
    QueryStatus,
    /// Start the service, with no arguments.
    StartService,
    StopService,
    DeleteService,
    /// Create the service as its own process, started on demand, with normal
    /// error handling, no dependencies and no explicit account.
    CreateService,
    /// Sleep this many milliseconds.
    Sleep(u64),
    Record(ServiceEvent),
    /// The action is over, with this result.
    Finish(Result<(), Error>),
}

/// What the service manager answered to the last command.
#[derive(Debug, Clone)]
pub enum Reply {
    /// The call succeeded (also the answer to a sleep or a record).
    Done,
    /// The service is in this state.
    Status(ServiceState),
    Failed(PlatformError),
}

/// After a record: what the action does next.
#[derive(Debug, Clone)]
pub enum AfterRecord {
    Succeed,
    Poll,
    Fail(PlatformError),
}

/// What a session waits for.
#[derive(Debug, Clone)]
pub enum Phase {
    Connecting,
    Opening,
    Querying,
    Transitioning,
    Polling,
    Sleeping,
    Finalizing,
    Recording(AfterRecord),
    Done,
}

/// One action in progress.
#[derive(Debug, Clone)]
pub struct ControlSession {
    pub action: ControlAction,
    pub phase: Phase,
    pub poller: Poller,
}

/// The service's identity and launch parameters, fixed at startup.
#[derive(Debug, Clone)]
pub struct ServiceDefinition {
    pub name: String,
    pub display_name: String,
    pub description: String,
    pub executable_path: String,
    pub launch_arguments: Vec<String>,
}

/// How the service is run.
#[derive(Debug, Clone, Copy, PartialEq, Eq, Structural)]
pub enum ServiceType {
    OwnProcess,
    SharedProcess,
}

/// When the service is started.
#[derive(Debug, Clone, Copy, PartialEq, Eq, Structural)]
pub enum StartType {
    AutoStart,
    OnDemand,
    Disabled,
}

/// What the system does when the service fails to start.
#[derive(Debug, Clone, Copy, PartialEq, Eq, Structural)]
pub enum ErrorControl {
    Ignore,
    Normal,
    Severe,
    Critical,
}

/// What the service manager is asked to create on install. A description
/// cannot be given at creation, so it has none.
#[derive(Debug, Clone)]
pub struct ServiceDescriptor {
    pub name: String,
    pub display_name: String,
    pub service_type: ServiceType,
    pub start_type: StartType,
    pub error_control: ErrorControl,
    pub executable_path: String,
    pub launch_arguments: Vec<String>,
    pub dependencies: Vec<String>,
    pub account_name: Option<String>,
    pub account_password: Option<String>,
}

impl ServiceDescriptor {
    /// The descriptor for installing `def`: its own process, started on
    /// demand, with normal error handling, its executable and launch
    /// arguments, no dependencies and no explicit account.
    pub fn for_install(def: &ServiceDefinition) -> (r: ServiceDescriptor)
        ensures
            r.name@ == def.name@,
            r.display_name@ == def.display_name@,
            r.service_type == ServiceType::OwnProcess,
            r.start_type == StartType::OnDemand,
            r.error_control == ErrorControl::Normal,
            r.executable_path@ == def.executable_path@,
            r.launch_arguments.deep_view() == def.launch_arguments.deep_view(),
            r.dependencies@.len() == 0,
            r.account_name is None,
            r.account_password is None,
    {
        let mut launch_arguments: Vec<String> = Vec::new();
        push_all(&mut launch_arguments, &def.launch_arguments);
        assert(launch_arguments.deep_view() =~= def.launch_arguments.deep_view());
        ServiceDescriptor {
            name: def.name.clone(),
            display_name: def.display_name.clone(),
            service_type: ServiceType::OwnProcess,
            start_type: StartType::OnDemand,
            error_control: ErrorControl::Normal,
            executable_path: def.executable_path.clone(),
            launch_arguments,
            dependencies: Vec::new(),
            account_name: None,
            account_password: None,
        }
    }
}

/// The rights each action asks for on the service: only those that its own
/// calls need.
pub open spec fn access_for(action: ControlAction) -> Access {
    match action {
        ControlAction::Start => Access { query_status: true, start: true, stop: false, delete: false },
        ControlAction::Stop => Access { query_status: true, start: false, stop: true, delete: false },
        ControlAction::Restart => Access { query_status: true, start: true, stop: true, delete: false },
        ControlAction::Uninstall => Access { query_status: true, start: false, stop: true, delete: true },
        ControlAction::Install => Access { query_status: false, start: false, stop: false, delete: false },
    }
}

/// The rights each action asks for on the service manager.
pub open spec fn manager_access_for(action: ControlAction) -> ManagerAccess {
    ManagerAccess { connect: true, create_service: action == ControlAction::Install }
}

/// The wait for the service to stop, before any query.
pub open spec fn stop_poller() -> Poller {
    Poller {
        target: ServiceState::Stopped,
        timeout: STOP_TIMEOUT_MS,
        wait_hint: STOP_POLL_INTERVAL_MS,
        waited: 0,
        queries: 0,
        last: ServiceState::Stopped,
        sleeping: false,
        finished: false,
    }
}

/// Whether `reply` is an answer to what a session in `phase` waits for.
pub open spec fn reply_fits(phase: Phase, reply: Reply) -> bool {
    match phase {
        Phase::Querying | Phase::Polling => !(reply is Done),
        Phase::Sleeping | Phase::Recording(_) => reply is Done,
        Phase::Done => false,
        _ => !(reply is Status),
    }
}

/// A session just begun, and its first command.
pub open spec fn session_begin(action: ControlAction) -> (ControlSession, Command) {
    (
        ControlSession { action, phase: Phase::Connecting, poller: stop_poller() },
        Command::ConnectManager(manager_access_for(action)),
    )
}

/// Moves a session to `phase` and asks for `cmd`.
pub open spec fn go(s: ControlSession, phase: Phase, cmd: Command) -> (ControlSession, Command) {
    (ControlSession { phase, ..s }, cmd)
}

/// What comes once the service's first reported state `st` is known.
pub open spec fn after_first_query(s: ControlSession, st: ServiceState) -> (ControlSession, Command) {
    match s.action {
        ControlAction::Start => if is_starting_or_running(st) {
            go(s, Phase::Recording(AfterRecord::Succeed),
                Command::Record(ServiceEvent::Started { already_started: true }))
        } else {
            go(s, Phase::Transitioning, Command::StartService)
        },
        ControlAction::Stop => if is_stopping_or_stopped(st) {
            go(s, Phase::Recording(AfterRecord::Succeed),
                Command::Record(ServiceEvent::Stopped { already_stopped: true }))
        } else {
            go(s, Phase::Transitioning, Command::StopService)
        },
        ControlAction::Restart => if is_starting_or_running(st) {
            go(s, Phase::Transitioning, Command::StopService)
        } else {
            go(s, Phase::Polling, Command::QueryStatus)
        },
        _ => if st != ServiceState::Stopped {
            go(s, Phase::Transitioning, Command::StopService)
        } else {
            go(s, Phase::Polling, Command::QueryStatus)
        },
    }
}

/// What comes once the start or stop request after the first query succeeded.
pub open spec fn after_transition(s: ControlSession) -> (ControlSession, Command) {
    match s.action {
        ControlAction::Start => go(s, Phase::Recording(AfterRecord::Succeed),
            Command::Record(ServiceEvent::Started { already_started: false })),
        ControlAction::Stop => go(s, Phase::Recording(AfterRecord::Succeed),
            Command::Record(ServiceEvent::Stopped { already_stopped: false })),
        ControlAction::Restart => go(s, Phase::Polling, Command::QueryStatus),
        _ => go(s, Phase::Recording(AfterRecord::Poll),
            Command::Record(ServiceEvent::Stopped { already_stopped: false })),
    }
}

/// What comes once the wait for the stopped state ends with `status`.
pub open spec fn after_poll(s: ControlSession, status: PollStatus) -> (ControlSession, Command) {
    match status {
        PollStatus::NoTimeout => if s.action == ControlAction::Restart {
            go(s, Phase::Finalizing, Command::StartService)
        } else {
            go(s, Phase::Finalizing, Command::DeleteService)
        },
        PollStatus::Timeout(st) => go(s, Phase::Done, Command::Finish(Err(Error::PollTimeout {
            state: st,
            expected_state: ServiceState::Stopped,
            timeout_ms: STOP_TIMEOUT_MS,
        }))),
    }
}

/// What comes once the wait for the stopped state asks for `step`.
pub open spec fn after_poll_step(s: ControlSession, step: PollStep) -> (ControlSession, Command) {
    match step {
        PollStep::Sleep(d) => go(s, Phase::Sleeping, Command::Sleep(d)),
        PollStep::Query => go(s, Phase::Polling, Command::QueryStatus),
        PollStep::Finished(status) => after_poll(s, status),
    }
}

/// The event recorded once an action's last call succeeded.
pub open spec fn final_event(action: ControlAction) -> ServiceEvent {
    match action {
        ControlAction::Install => ServiceEvent::Installed,
        ControlAction::Restart => ServiceEvent::Restarted,
        _ => ServiceEvent::Uninstalled,
    }
}

/// One reply handed to a session: its next value and the next command. A
/// failed call ends the action with that failure, at once and without retry;
/// a failure to open the service is first recorded once.
pub open spec fn session_step(s: ControlSession, reply: Reply) -> (ControlSession, Command) {
    match reply {
        Reply::Failed(e) => match s.phase {
            Phase::Opening => go(s, Phase::Recording(AfterRecord::Fail(e)),
                Command::Record(ServiceEvent::DoesNotExist)),
            _ => go(s, Phase::Done, Command::Finish(Err(Error::Service(e)))),
        },
        Reply::Status(st) => match s.phase {
            Phase::Querying => after_first_query(s, st),
            _ => {
                let (p, step) = poll_step(s.poller, st);
                after_poll_step(ControlSession { poller: p, ..s }, step)
            },
        },
        Reply::Done => match s.phase {
            Phase::Connecting => if s.action == ControlAction::Install {
                go(s, Phase::Finalizing, Command::CreateService)
            } else {
                go(s, Phase::Opening, Command::OpenService(access_for(s.action)))
            },
            Phase::Opening => go(s, Phase::Querying, Command::QueryStatus),
            Phase::Transitioning => after_transition(s),
            Phase::Sleeping => {
                let (p, step) = poll_wake(s.poller);
                after_poll_step(ControlSession { poller: p, ..s }, step)
            },
            Phase::Finalizing => go(s, Phase::Recording(AfterRecord::Succeed),
                Command::Record(final_event(s.action))),
            Phase::Recording(AfterRecord::Poll) => go(s, Phase::Polling, Command::QueryStatus),
            Phase::Recording(AfterRecord::Fail(e)) => go(s, Phase::Done,
                Command::Finish(Err(Error::Service(e)))),
            _ => go(s, Phase::Done, Command::Finish(Ok(()))),
        },
    }
}

impl ControlSession {
    /// The session's invariant: the wait for the stopped state keeps its fixed
    /// bounds, is fresh until it begins, and is unfinished while it runs; an
    /// install never opens or queries the service.
    pub open spec fn wf(&self) -> bool {
        &&& self.poller.wf()
        &&& self.poller.target == ServiceState::Stopped
        &&& self.poller.timeout == STOP_TIMEOUT_MS
        &&& self.poller.wait_hint == STOP_POLL_INTERVAL_MS
        &&& self.phase is Polling ==> (!self.poller.finished && !self.poller.sleeping)
        &&& self.phase is Sleeping ==> self.poller.sleeping
        &&& (self.phase is Connecting || self.phase is Opening || self.phase is Querying
            || self.phase is Transitioning || self.phase matches Phase::Recording(AfterRecord::Poll))
            ==> self.poller == stop_poller()
        &&& self.action == ControlAction::Install ==> (self.phase is Connecting
            || self.phase is Finalizing || self.phase matches Phase::Recording(AfterRecord::Succeed)
            || self.phase is Done)
        &&& (self.phase is Polling || self.phase is Sleeping || self.phase matches Phase::Recording(AfterRecord::Poll))
            ==> (self.action == ControlAction::Restart || self.action == ControlAction::Uninstall)
        &&& self.phase is Finalizing ==> self.action != ControlAction::Start
            && self.action != ControlAction::Stop
    }
}

/// Each action is routed to its own handler alone: a session begun with
/// an action keeps it through every step, asks for that action's own rights,
/// and every command it issues, its final result included, is decided by
/// that action's sequence of calls.
pub proof fn lemma_routing(action: ControlAction, s: ControlSession, reply: Reply)
    ensures
        session_begin(action).0.action == action,
        session_begin(action).1 == Command::ConnectManager(manager_access_for(action)),
        session_step(s, reply).0.action == s.action,
        s.phase is Connecting && reply is Done && action == s.action ==> session_step(s, reply).1
            == (if action == ControlAction::Install {
            Command::CreateService
        } else {
            Command::OpenService(access_for(action))
        }),
{
}

impl ControlSession {
    /// Begins `action`: the session routes every later reply to that action's
    /// own sequence of calls, and asks first for a connection to the service
    /// manager with the rights the action needs there.
    pub fn begin(action: ControlAction) -> (r: (ControlSession, Command))
        ensures
            r == session_begin(action),
            r.0.wf(),
            r.0.action == action,
    {
        let access = ManagerAccess { connect: true, create_service: action == ControlAction::Install };
        (
            ControlSession { action, phase: Phase::Connecting, poller: new_stop_poller() },
            Command::ConnectManager(access),
        )
    }

    /// Hands the session the answer to its last command, and gives its next
    /// value and the next command.
    pub fn step(self, reply: Reply) -> (r: (ControlSession, Command))
        requires
            self.wf(),
            reply_fits(self.phase, reply),
        ensures
            r == session_step(self, reply),
            r.0.wf(),
            r.0.action == self.action,
            // Start issues no start request where one is under way or done,
            // and then records that the service was already started.
            self.action == ControlAction::Start && r.1 is StartService ==> (self.phase is Querying
                && reply is Status && !is_starting_or_running(reply->Status_0)),
            self.action == ControlAction::Start && self.phase is Querying && reply is Status
                && is_starting_or_running(reply->Status_0) ==> r.1 == Command::Record(
                ServiceEvent::Started { already_started: true }),
            // Stop is symmetric.
            self.action == ControlAction::Stop && r.1 is StopService ==> (self.phase is Querying
                && reply is Status && !is_stopping_or_stopped(reply->Status_0)),
            // Restart starts only once the wait has seen the stopped state.
            self.action == ControlAction::Restart && r.1 is StartService ==> (self.phase is Polling
                && reply == Reply::Status(ServiceState::Stopped)),
            self.action == ControlAction::Restart && self.phase is Querying && reply is Status
                && is_starting_or_running(reply->Status_0) ==> r.1 is StopService,
            // A wait that runs out ends restart and uninstall with a timeout,
            // after its last sleep, with the state observed last.
            self.phase is Sleeping && r.1 is Finish ==> r.1 == Command::Finish(
                Err(Error::PollTimeout {
                    state: self.poller.last,
                    expected_state: ServiceState::Stopped,
                    timeout_ms: STOP_TIMEOUT_MS,
                }),
            ),
            self.phase is Polling && reply is Status ==> !(r.1 is Finish),
            // A missing or unopenable service is recorded once, and only then.
            r.1 == Command::Record(ServiceEvent::DoesNotExist) <==> (self.phase is Opening
                && reply is Failed),
            // Any other failed call ends the action at once, without retry.
            reply is Failed && !(self.phase is Opening) ==> (r.0.phase is Done && r.1 == Command::Finish(
                Err(Error::Service(reply->Failed_0)),
            )),
            // Nothing is deleted but by uninstall, once the wait has seen the
            // stopped state.
            r.1 is DeleteService ==> (self.action == ControlAction::Uninstall && self.phase is Polling
                && reply == Reply::Status(ServiceState::Stopped)),
    {
        let action = self.action;
        let poller = self.poller;
        match reply {
            Reply::Failed(e) => match self.phase {
                Phase::Opening => (
                    ControlSession { action, phase: Phase::Recording(AfterRecord::Fail(e)), poller },
                    Command::Record(ServiceEvent::DoesNotExist),
                ),
                _ => (
                    ControlSession { action, phase: Phase::Done, poller },
                    Command::Finish(Err(Error::Service(e))),
                ),
            },
            Reply::Status(st) => match self.phase {
                Phase::Querying => first_query_step(action, poller, st),
                _ => {
                    let mut p = poller;
                    let step = p.observe(st);
                    poll_step_command(action, p, step)
                },
            },
            Reply::Done => match self.phase {
                Phase::Connecting => if action == ControlAction::Install {
                    (ControlSession { action, phase: Phase::Finalizing, poller }, Command::CreateService)
                } else {
                    (
                        ControlSession { action, phase: Phase::Opening, poller },
                        Command::OpenService(service_access(action)),
                    )
                },
                Phase::Opening => (
                    ControlSession { action, phase: Phase::Querying, poller },
                    Command::QueryStatus,
                ),
                Phase::Transitioning => transition_step(action, poller),
                Phase::Sleeping => {
                    let mut p = poller;
                    let step = p.wake();
                    poll_step_command(action, p, step)
                },
                Phase::Finalizing => {
                    let event = match action {
                        ControlAction::Install => ServiceEvent::Installed,
                        ControlAction::Restart => ServiceEvent::Restarted,
                        _ => ServiceEvent::Uninstalled,
                    };
                    (
                        ControlSession { action, phase: Phase::Recording(AfterRecord::Succeed), poller },
                        Command::Record(event),
                    )
                },
                Phase::Recording(AfterRecord::Poll) => (
                    ControlSession { action, phase: Phase::Polling, poller },
                    Command::QueryStatus,
                ),
                Phase::Recording(AfterRecord::Fail(e)) => (
                    ControlSession { action, phase: Phase::Done, poller },
                    Command::Finish(Err(Error::Service(e))),
                ),
                _ => (ControlSession { action, phase: Phase::Done, poller }, Command::Finish(Ok(()))),
            },
        }
    }
}

/// The step after the wait for the stopped state asked for `step`.
fn poll_step_command(action: ControlAction, poller: Poller, step: PollStep) -> (r: (ControlSession, Command))
    ensures
        r == after_poll_step(ControlSession { action, phase: Phase::Polling, poller }, step),
{
    match step {
        PollStep::Sleep(d) => (ControlSession { action, phase: Phase::Sleeping, poller }, Command::Sleep(d)),
        PollStep::Query => (ControlSession { action, phase: Phase::Polling, poller }, Command::QueryStatus),
        PollStep::Finished(PollStatus::NoTimeout) => {
            let cmd = if action == ControlAction::Restart {
                Command::StartService
            } else {
                Command::DeleteService
            };
            (ControlSession { action, phase: Phase::Finalizing, poller }, cmd)
        },
        PollStep::Finished(PollStatus::Timeout(last)) => (
            ControlSession { action, phase: Phase::Done, poller },
            Command::Finish(Err(Error::PollTimeout {
                state: last,
                expected_state: ServiceState::Stopped,
                timeout_ms: STOP_TIMEOUT_MS,
            })),
        ),
    }
}

/// The wait for the stopped state, before any query.
fn new_stop_poller() -> (r: Poller)
    ensures
        r == stop_poller(),
        r.wf(),
{
    Poller::new(ServiceState::Stopped, STOP_TIMEOUT_MS, STOP_POLL_INTERVAL_MS)
}

/// The rights that `action` asks for on the service.
fn service_access(action: ControlAction) -> (r: Access)
    ensures
        r == access_for(action),
{
    match action {
        ControlAction::Start => Access { query_status: true, start: true, stop: false, delete: false },
        ControlAction::Stop => Access { query_status: true, start: false, stop: true, delete: false },
        ControlAction::Restart => Access { query_status: true, start: true, stop: true, delete: false },
        ControlAction::Uninstall => Access { query_status: true, start: false, stop: true, delete: true },
        ControlAction::Install => Access { query_status: false, start: false, stop: false, delete: false },
    }
}

/// The step after the first query reported `st`.
fn first_query_step(action: ControlAction, poller: Poller, st: ServiceState) -> (r: (ControlSession, Command))
    ensures
        r == after_first_query(ControlSession { action, phase: Phase::Querying, poller }, st),
{
    let (phase, cmd) = match action {
        ControlAction::Start => if st == ServiceState::StartPending || st == ServiceState::Running {
            (Phase::Recording(AfterRecord::Succeed),
                Command::Record(ServiceEvent::Started { already_started: true }))
        } else {
            (Phase::Transitioning, Command::StartService)
        },
        ControlAction::Stop => if st == ServiceState::StopPending || st == ServiceState::Stopped {
            (Phase::Recording(AfterRecord::Succeed),
                Command::Record(ServiceEvent::Stopped { already_stopped: true }))
        } else {
            (Phase::Transitioning, Command::StopService)
        },
        ControlAction::Restart => if st == ServiceState::StartPending || st == ServiceState::Running {
            (Phase::Transitioning, Command::StopService)
        } else {
            (Phase::Polling, Command::QueryStatus)
        },
        _ => if st != ServiceState::Stopped {
            (Phase::Transitioning, Command::StopService)
        } else {
            (Phase::Polling, Command::QueryStatus)
        },
    };
    (ControlSession { action, phase, poller }, cmd)
}

/// The step after the start or stop request that followed the first query.
fn transition_step(action: ControlAction, poller: Poller) -> (r: (ControlSession, Command))
    ensures
        r == after_transition(ControlSession { action, phase: Phase::Transitioning, poller }),
{
    let (phase, cmd) = match action {
        ControlAction::Start => (Phase::Recording(AfterRecord::Succeed),
            Command::Record(ServiceEvent::Started { already_started: false })),
        ControlAction::Stop => (Phase::Recording(AfterRecord::Succeed),
            Command::Record(ServiceEvent::Stopped { already_stopped: false })),
        ControlAction::Restart => (Phase::Polling, Command::QueryStatus),
        _ => (Phase::Recording(AfterRecord::Poll),
            Command::Record(ServiceEvent::Stopped { already_stopped: false })),
    };
    (ControlSession { action, phase, poller }, cmd)
}

} // verus!
