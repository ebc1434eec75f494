use vector_service::action::ControlAction;
use vector_service::control::{
    Access, Command, ControlSession, ErrorControl, Error, ManagerAccess, PlatformError, Reply,
    ServiceDefinition, ServiceDescriptor, ServiceEvent, ServiceType, StartType, STOP_TIMEOUT_MS,
};
use vector_service::state::ServiceState;

/// An in-memory service manager.
struct FakeBackend {
    state: ServiceState,
    /// The state never changes, whatever is asked.
    pinned: bool,
    exists: bool,
    calls: Vec<String>,
    events: Vec<ServiceEvent>,
    slept_ms: u64,
}

impl FakeBackend {
    fn new(state: ServiceState) -> FakeBackend {
        FakeBackend { state, pinned: false, exists: true, calls: vec![], events: vec![], slept_ms: 0 }
    }

    fn pinned(state: ServiceState) -> FakeBackend {
        FakeBackend { pinned: true, ..FakeBackend::new(state) }
    }

    fn count(&self, call: &str) -> usize {
        self.calls.iter().filter(|c| c.as_str() == call).count()
    }

    fn position(&self, call: &str) -> Option<usize> {
        self.calls.iter().position(|c| c.as_str() == call)
    }
}

fn failure() -> PlatformError {
    PlatformError { os_code: Some(1060), message: "The specified service does not exist".to_string() }
}

fn drive(action: ControlAction, backend: &mut FakeBackend) -> Result<(), Error> {
    let (mut session, mut command) = ControlSession::begin(action);
    loop {
        let reply = match command {
            Command::ConnectManager(access) => {
                backend.calls.push(format!("connect:{}", access.create_service));
                Reply::Done
            }
            Command::OpenService(_) => {
                backend.calls.push("open".to_string());
                if backend.exists { Reply::Done } else { Reply::Failed(failure()) }
            }
            Command::QueryStatus => {
                backend.calls.push("query".to_string());
                Reply::Status(backend.state)
            }
            Command::StartService => {
                backend.calls.push("start".to_string());
                if !backend.pinned {
                    backend.state = ServiceState::Running;
                }
                Reply::Done
            }
            Command::StopService => {
                backend.calls.push("stop".to_string());
                if !backend.pinned {
                    backend.state = ServiceState::Stopped;
                }
                Reply::Done
            }
            Command::DeleteService => {
                backend.calls.push("delete".to_string());
                Reply::Done
            }
            Command::CreateService => {
                backend.calls.push("create".to_string());
                Reply::Done
            }
            Command::Sleep(ms) => {
                backend.slept_ms += ms;
                Reply::Done
            }
            Command::Record(event) => {
                backend.events.push(event);
                Reply::Done
            }
            Command::Finish(result) => return result,
        };
        let (next, cmd) = session.step(reply);
        session = next;
        command = cmd;
    }
}

fn assert_stop_timeout(result: Result<(), Error>, observed: ServiceState) {
    match result {
        Err(Error::PollTimeout { state, expected_state, timeout_ms }) => {
            assert_eq!(state, observed);
            assert_eq!(expected_state, ServiceState::Stopped);
            assert_eq!(timeout_ms, STOP_TIMEOUT_MS);
        }
        other => panic!("expected a poll timeout, got {:?}", other),
    }
}

#[test]
fn start_from_stopped_starts_the_service() {
    let mut backend = FakeBackend::new(ServiceState::Stopped);
    assert!(drive(ControlAction::Start, &mut backend).is_ok());
    assert_eq!(backend.state, ServiceState::Running);
    assert_eq!(backend.events, vec![ServiceEvent::Started { already_started: false }]);
    assert_eq!(backend.count("start"), 1);
}

#[test]
fn start_when_running_issues_no_start() {
    for state in [ServiceState::Running, ServiceState::StartPending] {
        let mut backend = FakeBackend::new(state);
        assert!(drive(ControlAction::Start, &mut backend).is_ok());
        assert_eq!(backend.count("start"), 0);
        assert_eq!(backend.events, vec![ServiceEvent::Started { already_started: true }]);
    }
}

#[test]
fn stop_from_running_and_when_stopped() {
    let mut backend = FakeBackend::new(ServiceState::Running);
    assert!(drive(ControlAction::Stop, &mut backend).is_ok());
    assert_eq!(backend.state, ServiceState::Stopped);
    assert_eq!(backend.events, vec![ServiceEvent::Stopped { already_stopped: false }]);

    let mut backend = FakeBackend::new(ServiceState::StopPending);
    assert!(drive(ControlAction::Stop, &mut backend).is_ok());
    assert_eq!(backend.count("stop"), 0);
    assert_eq!(backend.events, vec![ServiceEvent::Stopped { already_stopped: true }]);
}

#[test]
fn restart_stops_polls_then_starts() {
    let mut backend = FakeBackend::new(ServiceState::Running);
    assert!(drive(ControlAction::Restart, &mut backend).is_ok());
    assert_eq!(backend.calls, vec!["connect:false", "open", "query", "stop", "query", "start"]);
    assert_eq!(backend.state, ServiceState::Running);
    assert_eq!(backend.events, vec![ServiceEvent::Restarted]);
}

#[test]
fn restart_times_out_without_starting() {
    let mut backend = FakeBackend::pinned(ServiceState::Running);
    assert_stop_timeout(drive(ControlAction::Restart, &mut backend), ServiceState::Running);
    assert_eq!(backend.count("start"), 0);
    assert_eq!(backend.count("stop"), 1);
    // One query to decide, then ten for the wait, each followed by a sleep.
    assert_eq!(backend.count("query"), 11);
    assert_eq!(backend.slept_ms, 10000);
    assert!(backend.events.is_empty());
}

#[test]
fn uninstall_deletes_only_after_stopped() {
    let mut backend = FakeBackend::new(ServiceState::Running);
    assert!(drive(ControlAction::Uninstall, &mut backend).is_ok());
    assert_eq!(
        backend.calls,
        vec!["connect:false", "open", "query", "stop", "query", "delete"]
    );
    assert_eq!(
        backend.events,
        vec![ServiceEvent::Stopped { already_stopped: false }, ServiceEvent::Uninstalled]
    );

    let mut backend = FakeBackend::new(ServiceState::Stopped);
    assert!(drive(ControlAction::Uninstall, &mut backend).is_ok());
    assert_eq!(backend.count("stop"), 0);
    assert_eq!(backend.events, vec![ServiceEvent::Uninstalled]);
}

#[test]
fn uninstall_times_out_without_deleting() {
    let mut backend = FakeBackend::pinned(ServiceState::StopPending);
    assert_stop_timeout(drive(ControlAction::Uninstall, &mut backend), ServiceState::StopPending);
    assert_eq!(backend.count("delete"), 0);
    assert!(backend.position("stop").unwrap() < backend.calls.len());
}

#[test]
fn install_creates_with_create_rights() {
    let mut backend = FakeBackend::new(ServiceState::Stopped);
    assert!(drive(ControlAction::Install, &mut backend).is_ok());
    assert_eq!(backend.calls, vec!["connect:true", "create"]);
    assert_eq!(backend.events, vec![ServiceEvent::Installed]);
}

#[test]
fn open_failure_is_recorded_once_and_returned() {
    let mut backend = FakeBackend::new(ServiceState::Stopped);
    backend.exists = false;
    match drive(ControlAction::Start, &mut backend) {
        Err(Error::Service(e)) => {
            assert_eq!(e.os_code, Some(1060));
            assert_eq!(e.message, "The specified service does not exist");
        }
        other => panic!("expected a service error, got {:?}", other),
    }
    assert_eq!(backend.events, vec![ServiceEvent::DoesNotExist]);
    assert_eq!(backend.count("query"), 0);
}

#[test]
fn query_failure_aborts_without_retry() {
    let (session, cmd) = ControlSession::begin(ControlAction::Stop);
    assert!(matches!(cmd, Command::ConnectManager(ManagerAccess { connect: true, create_service: false })));
    let (session, cmd) = session.step(Reply::Done);
    match cmd {
        Command::OpenService(access) => assert_eq!(
            access,
            Access { query_status: true, start: false, stop: true, delete: false }
        ),
        other => panic!("expected open, got {:?}", other),
    }
    let (session, cmd) = session.step(Reply::Done);
    assert!(matches!(cmd, Command::QueryStatus));
    let (_, cmd) = session.step(Reply::Failed(failure()));
    assert!(matches!(cmd, Command::Finish(Err(Error::Service(_)))));
}

#[test]
fn each_action_asks_for_its_own_rights() {
    let expected = [
        (ControlAction::Start, Access { query_status: true, start: true, stop: false, delete: false }),
        (ControlAction::Restart, Access { query_status: true, start: true, stop: true, delete: false }),
        (ControlAction::Uninstall, Access { query_status: true, start: false, stop: true, delete: true }),
    ];
    for (action, access) in expected {
        let (session, _) = ControlSession::begin(action);
        assert_eq!(session.action, action);
        let (_, cmd) = session.step(Reply::Done);
        match cmd {
            Command::OpenService(a) => assert_eq!(a, access),
            other => panic!("expected open, got {:?}", other),
        }
    }
}

#[test]
fn install_descriptor_copies_the_definition() {
    let def = ServiceDefinition {
        name: "vector".to_string(),
        display_name: "Vector".to_string(),
        description: "A data pipeline".to_string(),
        executable_path: "C:\\vector\\vector.exe".to_string(),
        launch_arguments: vec!["--config".to_string(), "vector.toml".to_string()],
    };
    let d = ServiceDescriptor::for_install(&def);
    assert_eq!(d.name, "vector");
    assert_eq!(d.display_name, "Vector");
    assert_eq!(d.executable_path, "C:\\vector\\vector.exe");
    assert_eq!(d.launch_arguments, vec!["--config".to_string(), "vector.toml".to_string()]);
    assert_eq!(d.service_type, ServiceType::OwnProcess);
    assert_eq!(d.start_type, StartType::OnDemand);
    assert_eq!(d.error_control, ErrorControl::Normal);
    assert!(d.dependencies.is_empty());
    assert_eq!(d.account_name, None);
    assert_eq!(d.account_password, None);
}

#[test]
fn poll_timeout_message() {
    let e = Error::PollTimeout {
        state: ServiceState::Running,
        expected_state: ServiceState::Stopped,
        timeout_ms: 10000,
    };
    assert_eq!(
        e.message(),
        "Timeout occured after 10s while waiting for state to become Stopped, but was Running"
    );
    let e = Error::PollTimeout {
        state: ServiceState::StopPending,
        expected_state: ServiceState::Stopped,
        timeout_ms: 1500,
    };
    assert_eq!(
        e.message(),
        "Timeout occured after 1.5s while waiting for state to become Stopped, but was StopPending"
    );
}

#[test]
fn timeout_message_matches_duration_rendering() {
    for ms in [0u64, 7, 250, 999, 1000, 1050, 1500, 12345, 60000] {
        let e = Error::PollTimeout {
            state: ServiceState::Paused,
            expected_state: ServiceState::Running,
            timeout_ms: ms,
        };
        let expected = format!(
            "Timeout occured after {:?} while waiting for state to become Running, but was Paused",
            std::time::Duration::from_millis(ms)
        );
        assert_eq!(e.message(), expected);
    }
}

#[test]
fn service_error_message_is_the_platform_text() {
    assert_eq!(Error::Service(failure()).message(), "The specified service does not exist");
}
