use vector_service::entry::{
    handle_control, HandlerResult, RunAction, RunEvent, ServiceControl, ServiceExitCode, ServiceRun,
    ERROR_FAIL_SHUTDOWN,
};
use vector_service::state::ServiceState;

fn reported(action: &RunAction) -> Option<(ServiceState, ServiceExitCode, bool)> {
    match action {
        RunAction::ReportStatus(s) => Some((s.current_state, s.exit_code, s.accepts_stop)),
        _ => None,
    }
}

#[test]
fn failed_preparation_reports_stopped_with_its_code() {
    let (run, a) = ServiceRun::begin();
    assert!(matches!(a, RunAction::Register));
    let (run, a) = run.step(RunEvent::Done);
    assert!(matches!(a, RunAction::Prepare));
    let (run, a) = run.step(RunEvent::PrepareFailed(7));
    assert_eq!(
        reported(&a),
        Some((ServiceState::Stopped, ServiceExitCode::ServiceSpecific(7), false))
    );
    let (_, a) = run.step(RunEvent::Done);
    assert!(matches!(a, RunAction::Exit(Ok(()))));
}

#[test]
fn clean_shutdown_after_stop_signal() {
    let (run, _) = ServiceRun::begin();
    let (run, _) = run.step(RunEvent::Done);
    let (run, a) = run.step(RunEvent::Prepared);
    assert_eq!(reported(&a), Some((ServiceState::Running, ServiceExitCode::Win32(0), true)));
    let (run, a) = run.step(RunEvent::Done);
    assert!(matches!(a, RunAction::AwaitSignal));
    let (run, a) = run.step(RunEvent::StopSignal);
    assert!(matches!(a, RunAction::StopTopology));
    let (run, a) = run.step(RunEvent::TopologyStopped(true));
    assert_eq!(reported(&a), Some((ServiceState::Stopped, ServiceExitCode::Win32(0), false)));
    let (_, a) = run.step(RunEvent::Done);
    assert!(matches!(a, RunAction::Exit(Ok(()))));
}

#[test]
fn stop_signal_before_waiting_is_not_lost() {
    let (run, _) = ServiceRun::begin();
    let (run, _) = run.step(RunEvent::Done);
    let (run, _) = run.step(RunEvent::Prepared);
    let (run, a) = run.step(RunEvent::StopSignal);
    assert!(matches!(a, RunAction::Wait));
    let (_, a) = run.step(RunEvent::Done);
    assert!(matches!(a, RunAction::StopTopology));
}

#[test]
fn failed_shutdown_reports_fixed_code() {
    let (run, _) = ServiceRun::begin();
    let (run, _) = run.step(RunEvent::Done);
    let (run, _) = run.step(RunEvent::Prepared);
    let (run, _) = run.step(RunEvent::Done);
    let (run, _) = run.step(RunEvent::StopSignal);
    let (_, a) = run.step(RunEvent::TopologyStopped(false));
    assert_eq!(
        reported(&a),
        Some((ServiceState::Stopped, ServiceExitCode::Win32(ERROR_FAIL_SHUTDOWN), false))
    );
    assert_eq!(ERROR_FAIL_SHUTDOWN, 351);
}

#[test]
fn failed_registration_exits_with_the_error() {
    let (run, _) = ServiceRun::begin();
    let e = vector_service::control::PlatformError { os_code: Some(5), message: "denied".to_string() };
    let (_, a) = run.step(RunEvent::Failed(e));
    assert!(matches!(a, RunAction::Exit(Err(_))));
}

#[test]
fn control_handler_answers() {
    assert_eq!(handle_control(ServiceControl::Interrogate), (HandlerResult::NoError, false));
    assert_eq!(handle_control(ServiceControl::Stop), (HandlerResult::NoError, true));
    assert_eq!(handle_control(ServiceControl::Pause), (HandlerResult::NotImplemented, false));
    assert_eq!(handle_control(ServiceControl::Shutdown), (HandlerResult::NotImplemented, false));
}
