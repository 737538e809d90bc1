use iotedge::service::{
    run_mode, service_status, RunMode, ServiceControl, ServiceControlHandlerResult,
    ServiceExitCode, ServiceState, ShutdownSignal,
};

#[test]
fn run_mode_follows_the_variable() {
    assert_eq!(run_mode(true), RunMode::Console);
    assert_eq!(run_mode(false), RunMode::Service);
}

#[test]
fn stop_raises_shutdown_once() {
    let mut signal = ShutdownSignal::new();
    let first = signal.handle(ServiceControl::Stop);
    assert_eq!(first.answer, ServiceControlHandlerResult::NoError);
    assert!(first.raise_shutdown);
    let second = signal.handle(ServiceControl::Shutdown);
    assert_eq!(second.answer, ServiceControlHandlerResult::NoError);
    assert!(!second.raise_shutdown);
}

#[test]
fn other_controls_do_not_raise() {
    let mut signal = ShutdownSignal::new();
    let i = signal.handle(ServiceControl::Interrogate);
    assert_eq!(i.answer, ServiceControlHandlerResult::NoError);
    assert!(!i.raise_shutdown);
    let p = signal.handle(ServiceControl::Pause);
    assert_eq!(p.answer, ServiceControlHandlerResult::NotImplemented);
    assert!(!p.raise_shutdown);
    let s = signal.handle(ServiceControl::Shutdown);
    assert!(s.raise_shutdown);
}

#[test]
fn status_is_own_process_accepting_stop() {
    let s = service_status(ServiceState::Running);
    assert!(s.own_process);
    assert_eq!(s.current_state, ServiceState::Running);
    assert!(s.accepts_stop && s.accepts_shutdown);
    assert_eq!(s.exit_code, ServiceExitCode::Win32(0));
    assert_eq!(s.checkpoint, 0);
    assert_eq!(s.wait_hint_millis, 0);
}


use iotedge::service::{ServiceAction, ServiceEvent, ServiceFailure, ServiceRun, ServiceStage};

#[test]
fn service_run_happy_path() {
    let mut run = ServiceRun::new();
    assert_eq!(run.stage(), ServiceStage::Registering);
    assert_eq!(run.step(ServiceEvent::Registered(true)), ServiceAction::Initialize);
    assert_eq!(
        run.step(ServiceEvent::Initialized(true)),
        ServiceAction::ReportStatus(ServiceState::Running)
    );
    assert_eq!(run.step(ServiceEvent::StatusReported(true)), ServiceAction::RunDaemon);
    assert_eq!(
        run.step(ServiceEvent::ShutdownRequested),
        ServiceAction::ReportStatus(ServiceState::StopPending)
    );
    assert_eq!(run.step(ServiceEvent::StatusReported(false)), ServiceAction::LogStatusFailure);
    assert_eq!(
        run.step(ServiceEvent::DaemonReturned(true)),
        ServiceAction::ReportStatus(ServiceState::Stopped)
    );
    assert_eq!(run.step(ServiceEvent::StatusReported(true)), ServiceAction::Finish(Ok(())));
    assert_eq!(run.stage(), ServiceStage::Done);
    assert_eq!(run.step(ServiceEvent::Registered(true)), ServiceAction::Wait);
}

#[test]
fn service_run_failures_end_the_run() {
    let mut run = ServiceRun::new();
    assert_eq!(
        run.step(ServiceEvent::Registered(false)),
        ServiceAction::Finish(Err(ServiceFailure::RegisterWindowsService))
    );

    let mut run = ServiceRun::new();
    run.step(ServiceEvent::Registered(true));
    assert_eq!(
        run.step(ServiceEvent::Initialized(false)),
        ServiceAction::Finish(Err(ServiceFailure::Initialize))
    );

    let mut run = ServiceRun::new();
    run.step(ServiceEvent::Registered(true));
    run.step(ServiceEvent::Initialized(true));
    assert_eq!(
        run.step(ServiceEvent::StatusReported(false)),
        ServiceAction::Finish(Err(ServiceFailure::UpdateWindowsServiceState))
    );

    let mut run = ServiceRun::new();
    run.step(ServiceEvent::Registered(true));
    run.step(ServiceEvent::Initialized(true));
    run.step(ServiceEvent::StatusReported(true));
    run.step(ServiceEvent::DaemonReturned(false));
    assert_eq!(run.stage(), ServiceStage::ReportingStopped(false));
    assert_eq!(
        run.step(ServiceEvent::StatusReported(true)),
        ServiceAction::Finish(Err(ServiceFailure::Daemon))
    );
}

#[test]
fn out_of_order_events_are_ignored() {
    let mut run = ServiceRun::new();
    assert_eq!(run.step(ServiceEvent::DaemonReturned(true)), ServiceAction::Wait);
    assert_eq!(run.stage(), ServiceStage::Registering);
}
