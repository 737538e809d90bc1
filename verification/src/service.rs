//! The decisions of the IoT Edge daemon when it runs as a Windows service:
//! whether to run as a service at all, how to answer the service control
//! manager, and which status to report.
use vstd::prelude::*;

verus! {

/// How the daemon runs.
#[derive(Debug, Clone, Copy, PartialEq, Eq, Structural)]
pub enum RunMode {
    /// In the foreground, stopped by a console signal.
    Console,
    /// Under the Windows service control manager.
    Service,
}

/// The daemon runs as a console program when the variable
/// `IOTEDGE_RUN_AS_CONSOLE` is set, and as a service otherwise.
pub fn run_mode(console_variable_set: bool) -> (r: RunMode)
    ensures
        console_variable_set ==> r == RunMode::Console,
        !console_variable_set ==> r == RunMode::Service,
{
    if console_variable_set {
        RunMode::Console
    } else {
        RunMode::Service
    }
}

/// Only `Stop` and `Shutdown` end the service; `Interrogate` is acknowledged;
/// every other request is answered `NotImplemented`.
pub proof fn law_control_answers(control: ServiceControl, armed: bool)
    ensures
        ends_service(control) <==> (control == ServiceControl::Stop || control == ServiceControl::Shutdown),
        spec_control_answer(control) == ServiceControlHandlerResult::NoError <==> (control
            == ServiceControl::Stop || control == ServiceControl::Shutdown || control
            == ServiceControl::Interrogate),
        spec_control_answer(control) == ServiceControlHandlerResult::NoError || spec_control_answer(control)
            == ServiceControlHandlerResult::NotImplemented,
        spec_control_answer(ServiceControl::Continue) == ServiceControlHandlerResult::NotImplemented,
        !ends_service(ServiceControl::Continue),
        !ends_service(ServiceControl::Pause),
        !ends_service(ServiceControl::Preshutdown),
        !ends_service(ServiceControl::Interrogate),
{
}

/// A request of the service control manager.
#[derive(Debug, Clone, Copy, PartialEq, Eq, Structural)]
pub enum ServiceControl {
    Continue,
    Interrogate,
    NetBindAdd,
    NetBindDisable,
    NetBindEnable,
    NetBindRemove,
    ParamChange,
    Pause,
    Preshutdown,
    Shutdown,
    Stop,
}

/// The answer to a request of the service control manager.
#[derive(Debug, Clone, Copy, PartialEq, Eq, Structural)]
pub enum ServiceControlHandlerResult {
    NoError,
    NotImplemented,
    Other(u32),
}

/// True for the requests that end the service.
pub open spec fn ends_service(control: ServiceControl) -> bool {
    control == ServiceControl::Shutdown || control == ServiceControl::Stop
}

/// The answer to `control`.
pub open spec fn spec_control_answer(control: ServiceControl) -> ServiceControlHandlerResult {
    if ends_service(control) || control == ServiceControl::Interrogate {
        ServiceControlHandlerResult::NoError
    } else {
        ServiceControlHandlerResult::NotImplemented
    }
}

/// The one-shot shutdown signal of the service: raised at most once, on the
/// first request that ends the service.
pub struct ShutdownSignal {
    armed: bool,
}

impl View for ShutdownSignal {
    type V = bool;

    /// Whether the signal can still be raised.
    closed spec fn view(&self) -> bool {
        self.armed
    }
}

/// What handling one request did: the answer, and whether the shutdown signal
/// was raised by it.
pub struct ControlOutcome {
    pub answer: ServiceControlHandlerResult,
    pub raise_shutdown: bool,
}

impl ShutdownSignal {
    /// A signal that has not been raised yet.
    pub fn new() -> (r: ShutdownSignal)
        ensures
            r@,
    {
        ShutdownSignal { armed: true }
    }

    /// Handles a request of the service control manager. A request that ends
    /// the service raises the shutdown signal if it was not raised before; it
    /// and `Interrogate` are answered `NoError`, any other `NotImplemented`.
    pub fn handle(&mut self, control: ServiceControl) -> (r: ControlOutcome)
        ensures
            r.answer == spec_control_answer(control),
            r.raise_shutdown == (ends_service(control) && old(self)@),
            final(self)@ == (old(self)@ && !ends_service(control)),
            control == ServiceControl::Stop || control == ServiceControl::Shutdown ==> {
                &&& r.answer == ServiceControlHandlerResult::NoError
                &&& r.raise_shutdown == old(self)@
                &&& !final(self)@
            },
            control != ServiceControl::Stop && control != ServiceControl::Shutdown ==> {
                &&& !r.raise_shutdown
                &&& final(self)@ == old(self)@
            },
            control == ServiceControl::Interrogate ==> r.answer == ServiceControlHandlerResult::NoError,
            control != ServiceControl::Stop && control != ServiceControl::Shutdown
                && control != ServiceControl::Interrogate ==> r.answer
                == ServiceControlHandlerResult::NotImplemented,
    {
        match control {
            ServiceControl::Shutdown | ServiceControl::Stop => {
                let raise = self.armed;
                self.armed = false;
                ControlOutcome { answer: ServiceControlHandlerResult::NoError, raise_shutdown: raise }
            },
            ServiceControl::Interrogate => {
                ControlOutcome { answer: ServiceControlHandlerResult::NoError, raise_shutdown: false }
            },
            _ => ControlOutcome {
                answer: ServiceControlHandlerResult::NotImplemented,
                raise_shutdown: false,
            },
        }
    }
}

/// How many times the shutdown signal is raised while `controls` are handled
/// in order, starting with a signal that is `armed` or not.
pub open spec fn raises(controls: Seq<ServiceControl>, armed: bool) -> nat
    decreases controls.len(),
{
    if controls.len() == 0 {
        0
    } else {
        let now: nat = if ends_service(controls[0]) && armed { 1 } else { 0 };
        now + raises(controls.skip(1), armed && !ends_service(controls[0]))
    }
}

/// The shutdown signal is raised at most once, whatever the service control
/// manager sends; and exactly once when it sends a request that ends the
/// service.
pub proof fn law_shutdown_raised_at_most_once(controls: Seq<ServiceControl>, armed: bool)
    ensures
        raises(controls, armed) <= 1,
        !armed ==> raises(controls, armed) == 0,
        armed ==> (raises(controls, armed) == 1 <==> exists|i: int|
            0 <= i < controls.len() && ends_service(#[trigger] controls[i])),
    decreases controls.len(),
{
    if controls.len() > 0 {
        let rest = controls.skip(1);
        law_shutdown_raised_at_most_once(rest, armed && !ends_service(controls[0]));
        if armed && !ends_service(controls[0]) {
            if exists|i: int| 0 <= i < controls.len() && ends_service(#[trigger] controls[i]) {
                let i = choose|i: int| 0 <= i < controls.len() && ends_service(#[trigger] controls[i]);
                assert(i > 0);
                assert(rest[i - 1] == controls[i]);
            }
            if exists|i: int| 0 <= i < rest.len() && ends_service(#[trigger] rest[i]) {
                let i = choose|i: int| 0 <= i < rest.len() && ends_service(#[trigger] rest[i]);
                assert(controls[i + 1] == rest[i]);
            }
        }
    }
}

/// The state reported to the service control manager.
#[derive(Debug, Clone, Copy, PartialEq, Eq, Structural)]
pub enum ServiceState {
    Stopped,
    StartPending,
    StopPending,
    Running,
    ContinuePending,
    PausePending,
    Paused,
}

/// The exit code reported to the service control manager.
#[derive(Debug, Clone, Copy, PartialEq, Eq, Structural)]
pub enum ServiceExitCode {
    Win32(u32),
    ServiceSpecific(u32),
}

/// The status reported to the service control manager.
#[derive(Debug, Clone, Copy, PartialEq, Eq, Structural)]
pub struct ServiceStatus {
    /// The service runs in a process of its own.
    pub own_process: bool,
    pub current_state: ServiceState,
    /// The service accepts `Stop` requests.
    pub accepts_stop: bool,
    /// The service accepts `Shutdown` requests.
    pub accepts_shutdown: bool,
    pub exit_code: ServiceExitCode,
    pub checkpoint: u32,
    pub wait_hint_millis: u64,
}

/// The status reported when the service enters `state`: a service of its own
/// process that accepts stop and shutdown requests, with exit code 0, no
/// checkpoint and no wait hint.
pub fn service_status(state: ServiceState) -> (r: ServiceStatus)
    ensures
        r == (ServiceStatus {
            own_process: true,
            current_state: state,
            accepts_stop: true,
            accepts_shutdown: true,
            exit_code: ServiceExitCode::Win32(0),
            checkpoint: 0,
            wait_hint_millis: 0,
        }),
{
    ServiceStatus {
        own_process: true,
        current_state: state,
        accepts_stop: true,
        accepts_shutdown: true,
        exit_code: ServiceExitCode::Win32(0),
        checkpoint: 0,
        wait_hint_millis: 0,
    }
}

/// Why running the daemon under the service control manager failed.
#[derive(Debug, Clone, Copy, PartialEq, Eq, Structural)]
pub enum ServiceFailure {
    /// The service control handler could not be registered.
    RegisterWindowsService,
    /// The service dispatcher could not be started.
    StartWindowsService,
    /// The daemon could not be initialized.
    Initialize,
    /// A status could not be reported to the service control manager.
    UpdateWindowsServiceState,
    /// The daemon failed while it ran.
    Daemon,
}

/// Where a run under the service control manager stands.
#[derive(Debug, Clone, Copy, PartialEq, Eq, Structural)]
pub enum ServiceStage {
    /// The service control handler is being registered.
    Registering,
    /// The daemon is being initialized.
    Initializing,
    /// `Running` is being reported.
    ReportingRunning,
    /// The daemon runs.
    Running,
    /// The daemon has returned, successfully or not, and `Stopped` is being
    /// reported.
    ReportingStopped(bool),
    /// The run is over.
    Done,
}

/// What happened outside since the last step.
#[derive(Debug, Clone, Copy, PartialEq, Eq, Structural)]
pub enum ServiceEvent {
    /// Registering the control handler succeeded or failed.
    Registered(bool),
    /// Initializing the daemon succeeded or failed.
    Initialized(bool),
    /// Reporting a status succeeded or failed.
    StatusReported(bool),
    /// The shutdown signal was raised.
    ShutdownRequested,
    /// The daemon returned, successfully or not.
    DaemonReturned(bool),
}

/// What the caller does next.
#[derive(Debug, Clone, Copy, PartialEq, Eq)]
pub enum ServiceAction {
    /// Initialize the daemon.
    Initialize,
    /// Report this status to the service control manager.
    ReportStatus(ServiceState),
    /// Run the daemon until the shutdown signal.
    RunDaemon,
    /// Log that reporting a status failed, and go on.
    LogStatusFailure,
    /// Nothing; wait for the next event.
    Wait,
    /// End the run with this result.
    Finish(Result<(), ServiceFailure>),
}

/// One step of a run: the stage after `event` in `stage`, and what to do.
/// Registration, initialization and the `Running` and `Stopped` reports end
/// the run when they fail; a failed `StopPending` report is only logged; the
/// daemon's own failure is the run's result once `Stopped` is reported.
pub open spec fn service_step(stage: ServiceStage, event: ServiceEvent) -> (ServiceStage, ServiceAction) {
    match (stage, event) {
        (ServiceStage::Registering, ServiceEvent::Registered(true)) =>
            (ServiceStage::Initializing, ServiceAction::Initialize),
        (ServiceStage::Registering, ServiceEvent::Registered(false)) =>
            (ServiceStage::Done, ServiceAction::Finish(Err(ServiceFailure::RegisterWindowsService))),
        (ServiceStage::Initializing, ServiceEvent::Initialized(true)) =>
            (ServiceStage::ReportingRunning, ServiceAction::ReportStatus(ServiceState::Running)),
        (ServiceStage::Initializing, ServiceEvent::Initialized(false)) =>
            (ServiceStage::Done, ServiceAction::Finish(Err(ServiceFailure::Initialize))),
        (ServiceStage::ReportingRunning, ServiceEvent::StatusReported(true)) =>
            (ServiceStage::Running, ServiceAction::RunDaemon),
        (ServiceStage::ReportingRunning, ServiceEvent::StatusReported(false)) =>
            (ServiceStage::Done, ServiceAction::Finish(Err(ServiceFailure::UpdateWindowsServiceState))),
        (ServiceStage::Running, ServiceEvent::ShutdownRequested) =>
            (ServiceStage::Running, ServiceAction::ReportStatus(ServiceState::StopPending)),
        (ServiceStage::Running, ServiceEvent::StatusReported(false)) =>
            (ServiceStage::Running, ServiceAction::LogStatusFailure),
        (ServiceStage::Running, ServiceEvent::DaemonReturned(ok)) =>
            (ServiceStage::ReportingStopped(ok), ServiceAction::ReportStatus(ServiceState::Stopped)),
        (ServiceStage::ReportingStopped(ok), ServiceEvent::StatusReported(true)) =>
            (ServiceStage::Done, ServiceAction::Finish(if ok { Ok(()) } else { Err(ServiceFailure::Daemon) })),
        (ServiceStage::ReportingStopped(_), ServiceEvent::StatusReported(false)) =>
            (ServiceStage::Done, ServiceAction::Finish(Err(ServiceFailure::UpdateWindowsServiceState))),
        _ => (stage, ServiceAction::Wait),
    }
}

/// A run of the daemon under the service control manager, as a state
/// machine: the caller registers the control handler, then hands each
/// outcome to `step` and does what it answers.
pub struct ServiceRun {
    stage: ServiceStage,
}

impl View for ServiceRun {
    type V = ServiceStage;

    closed spec fn view(&self) -> ServiceStage {
        self.stage
    }
}

impl ServiceRun {
    /// A run that is registering its control handler.
    pub fn new() -> (r: ServiceRun)
        ensures
            r@ == ServiceStage::Registering,
    {
        ServiceRun { stage: ServiceStage::Registering }
    }

    /// The current stage.
    pub fn stage(&self) -> (r: ServiceStage)
        ensures
            r == self@,
    {
        self.stage
    }

    /// Takes one step on `event`.
    pub fn step(&mut self, event: ServiceEvent) -> (r: ServiceAction)
        ensures
            final(self)@ == service_step(old(self)@, event).0,
            r == service_step(old(self)@, event).1,
            old(self)@ == ServiceStage::Running ==> !(r is Finish),
            old(self)@ == ServiceStage::Running && event is StatusReported ==> final(self)@
                == ServiceStage::Running,
            old(self)@ == ServiceStage::Running && event == ServiceEvent::StatusReported(true) ==> r
                == ServiceAction::Wait,
            old(self)@ == ServiceStage::Running && event == ServiceEvent::ShutdownRequested ==> r
                == ServiceAction::ReportStatus(ServiceState::StopPending) && final(self)@
                == ServiceStage::Running,
    {
        let (next, action) = match (self.stage, event) {
            (ServiceStage::Registering, ServiceEvent::Registered(true)) =>
                (ServiceStage::Initializing, ServiceAction::Initialize),
            (ServiceStage::Registering, ServiceEvent::Registered(false)) =>
                (ServiceStage::Done, ServiceAction::Finish(Err(ServiceFailure::RegisterWindowsService))),
            (ServiceStage::Initializing, ServiceEvent::Initialized(true)) =>
                (ServiceStage::ReportingRunning, ServiceAction::ReportStatus(ServiceState::Running)),
            (ServiceStage::Initializing, ServiceEvent::Initialized(false)) =>
                (ServiceStage::Done, ServiceAction::Finish(Err(ServiceFailure::Initialize))),
            (ServiceStage::ReportingRunning, ServiceEvent::StatusReported(true)) =>
                (ServiceStage::Running, ServiceAction::RunDaemon),
            (ServiceStage::ReportingRunning, ServiceEvent::StatusReported(false)) =>
                (ServiceStage::Done, ServiceAction::Finish(Err(ServiceFailure::UpdateWindowsServiceState))),
            (ServiceStage::Running, ServiceEvent::ShutdownRequested) =>
                (ServiceStage::Running, ServiceAction::ReportStatus(ServiceState::StopPending)),
            (ServiceStage::Running, ServiceEvent::StatusReported(false)) =>
                (ServiceStage::Running, ServiceAction::LogStatusFailure),
            (ServiceStage::Running, ServiceEvent::DaemonReturned(ok)) =>
                (ServiceStage::ReportingStopped(ok), ServiceAction::ReportStatus(ServiceState::Stopped)),
            (ServiceStage::ReportingStopped(ok), ServiceEvent::StatusReported(true)) => {
                let result = if ok { Ok(()) } else { Err(ServiceFailure::Daemon) };
                (ServiceStage::Done, ServiceAction::Finish(result))
            },
            (ServiceStage::ReportingStopped(_), ServiceEvent::StatusReported(false)) =>
                (ServiceStage::Done, ServiceAction::Finish(Err(ServiceFailure::UpdateWindowsServiceState))),
            (stage, _) => (stage, ServiceAction::Wait),
        };
        self.stage = next;
        action
    }
}

/// The actions of a run in `stage` that sees `events` in order.
pub open spec fn service_actions(stage: ServiceStage, events: Seq<ServiceEvent>) -> Seq<ServiceAction>
    decreases events.len(),
{
    if events.len() == 0 {
        Seq::empty()
    } else {
        let (next, action) = service_step(stage, events[0]);
        seq![action] + service_actions(next, events.skip(1))
    }
}

proof fn lemma_actions_len(stage: ServiceStage, events: Seq<ServiceEvent>)
    ensures
        service_actions(stage, events).len() == events.len(),
    decreases events.len(),
{
    if events.len() > 0 {
        lemma_actions_len(service_step(stage, events[0]).0, events.skip(1));
    }
}

/// How many of `actions` end the run.
pub open spec fn finish_count(actions: Seq<ServiceAction>) -> nat
    decreases actions.len(),
{
    if actions.len() == 0 {
        0
    } else {
        (if actions[0] is Finish { 1nat } else { 0nat }) + finish_count(actions.skip(1))
    }
}

/// A finished run stays finished and does nothing more.
pub proof fn law_done_is_final(events: Seq<ServiceEvent>)
    ensures
        finish_count(service_actions(ServiceStage::Done, events)) == 0,
        forall|i: int| 0 <= i < events.len() ==>
            #[trigger] service_actions(ServiceStage::Done, events)[i] == ServiceAction::Wait,
    decreases events.len(),
{
    if events.len() > 0 {
        law_done_is_final(events.skip(1));
        lemma_actions_len(ServiceStage::Done, events.skip(1));
        let a = service_actions(ServiceStage::Done, events);
        let rest = service_actions(ServiceStage::Done, events.skip(1));
        assert(a.skip(1) =~= rest);
        assert forall|i: int| 0 <= i < events.len() implies #[trigger] a[i] == ServiceAction::Wait by {
            if i > 0 {
                assert(a[i] == rest[i - 1]);
            }
        }
    }
}

/// A run ends at most once, whatever happens outside: the step that ends it
/// is the one that enters `Done`, and nothing follows.
pub proof fn law_run_finishes_at_most_once(stage: ServiceStage, events: Seq<ServiceEvent>)
    ensures
        finish_count(service_actions(stage, events)) <= 1,
        stage == ServiceStage::Done ==> finish_count(service_actions(stage, events)) == 0,
    decreases events.len(),
{
    if events.len() > 0 {
        let (next, action) = service_step(stage, events[0]);
        law_run_finishes_at_most_once(next, events.skip(1));
        let a = service_actions(stage, events);
        assert(a.skip(1) =~= service_actions(next, events.skip(1)));
        if action is Finish {
            assert(next == ServiceStage::Done);
        }
    }
}

/// While the daemon runs, nothing but its return ends the run: a status
/// report (such as the `StopPending` one after the shutdown signal) keeps it
/// running whether it succeeds (nothing to do) or fails (logged), and the
/// shutdown signal asks for the `StopPending` report; only `DaemonReturned`
/// leaves the stage, to report `Stopped`.
pub proof fn law_running_ends_only_when_daemon_returns(event: ServiceEvent, ok: bool)
    ensures
        !(service_step(ServiceStage::Running, event).1 is Finish),
        service_step(ServiceStage::Running, event).0 != ServiceStage::Done,
        service_step(ServiceStage::Running, ServiceEvent::StatusReported(true)) == (
            ServiceStage::Running,
            ServiceAction::Wait,
        ),
        service_step(ServiceStage::Running, ServiceEvent::StatusReported(false)) == (
            ServiceStage::Running,
            ServiceAction::LogStatusFailure,
        ),
        service_step(ServiceStage::Running, ServiceEvent::ShutdownRequested) == (
            ServiceStage::Running,
            ServiceAction::ReportStatus(ServiceState::StopPending),
        ),
        service_step(ServiceStage::Running, ServiceEvent::DaemonReturned(ok)) == (
            ServiceStage::ReportingStopped(ok),
            ServiceAction::ReportStatus(ServiceState::Stopped),
        ),
        service_step(ServiceStage::ReportingStopped(ok), ServiceEvent::StatusReported(true)).1 == (if ok {
            ServiceAction::Finish(Ok(()))
        } else {
            ServiceAction::Finish(Err(ServiceFailure::Daemon))
        }),
{
}

/// The daemon runs only once `Running` was reported, and the run ends well
/// only when the daemon returned well and `Stopped` was reported.
pub proof fn law_service_step_order(stage: ServiceStage, event: ServiceEvent)
    ensures
        service_step(stage, event).1 == ServiceAction::RunDaemon ==> stage == ServiceStage::ReportingRunning
            && event == ServiceEvent::StatusReported(true),
        service_step(stage, event).1 == ServiceAction::Finish(Ok(())) ==> stage == ServiceStage::ReportingStopped(true)
            && event == ServiceEvent::StatusReported(true),
        service_step(stage, event).1 == ServiceAction::ReportStatus(ServiceState::Stopped) ==> stage
            == ServiceStage::Running,
{
}

} // verus!
