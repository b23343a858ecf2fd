use vstd::prelude::*;
use crate::launch::{plan_args, program_for, select_launch, text_seq, LaunchConfig, LaunchPlan};
use crate::status::{
    clone_opt_text, opt_text, LifecycleState, SnapshotModel, StatusSnapshot, SupervisorError,
};

verus! {

/// One running, or just terminated, instance of the backend executable.
pub struct ProcessHandle {
    pub pid: u32,
    pub dev_mode: bool,
    pub program: String,
    pub bound_address: Option<String>,
    pub started_at_ms: u64,
}

pub struct HandleModel {
    pub pid: u32,
    pub dev_mode: bool,
    pub program: Seq<char>,
    pub bound_address: Option<Seq<char>>,
    pub started_at_ms: u64,
}

impl View for ProcessHandle {
    type V = HandleModel;

    open spec fn view(&self) -> HandleModel {
        HandleModel {
            pid: self.pid,
            dev_mode: self.dev_mode,
            program: self.program@,
            bound_address: opt_text(self.bound_address),
            started_at_ms: self.started_at_ms,
        }
    }
}

/// What the launcher reports back after trying to spawn the executable.
pub enum SpawnOutcome {
    Spawned { pid: u32, bound_address: Option<String>, started_at_ms: u64 },
    Failed { reason: String },
}

/// What the process layer observed while a stop is in flight.
pub enum StopEvent {
    /// The child exited and its status was collected.
    Exited,
    /// The child no longer exists.
    NotFound,
    /// The wait after the last signal ran out.
    GraceElapsed,
    /// Signalling or reaping the child failed.
    SignalFailed { reason: String },
}

/// What the process layer must do next for a stop.
pub enum StopAction {
    /// No process is owned any more: the stop succeeded.
    Done,
    /// Ask the child to terminate, then wait for the grace period.
    Terminate { pid: u32 },
    /// Kill the child forcefully, then wait again.
    ForceKill { pid: u32 },
    /// Another transition is in flight: wait for it and stop again.
    Busy,
    /// The stop failed; the child is still owned.
    Failed { error: SupervisorError },
}

pub enum SpawnModel {
    Spawned { pid: u32, bound_address: Option<Seq<char>>, started_at_ms: u64 },
    Failed { reason: Seq<char> },
}

impl View for SpawnOutcome {
    type V = SpawnModel;

    open spec fn view(&self) -> SpawnModel {
        match self {
            SpawnOutcome::Spawned { pid, bound_address, started_at_ms } => SpawnModel::Spawned {
                pid: *pid,
                bound_address: opt_text(*bound_address),
                started_at_ms: *started_at_ms,
            },
            SpawnOutcome::Failed { reason } => SpawnModel::Failed { reason: reason@ },
        }
    }
}

pub enum EventModel {
    Exited,
    NotFound,
    GraceElapsed,
    SignalFailed { reason: Seq<char> },
}

impl View for StopEvent {
    type V = EventModel;

    open spec fn view(&self) -> EventModel {
        match self {
            StopEvent::Exited => EventModel::Exited,
            StopEvent::NotFound => EventModel::NotFound,
            StopEvent::GraceElapsed => EventModel::GraceElapsed,
            StopEvent::SignalFailed { reason } => EventModel::SignalFailed { reason: reason@ },
        }
    }
}

/// Spec-level outcome of a stop step.
pub enum ActionModel {
    Done,
    Terminate { pid: u32 },
    ForceKill { pid: u32 },
    Busy,
    TimedOut,
    SignalFailed { reason: Seq<char> },
}

impl View for StopAction {
    type V = ActionModel;

    open spec fn view(&self) -> ActionModel {
        match self {
            StopAction::Done => ActionModel::Done,
            StopAction::Terminate { pid } => ActionModel::Terminate { pid: *pid },
            StopAction::ForceKill { pid } => ActionModel::ForceKill { pid: *pid },
            StopAction::Busy => ActionModel::Busy,
            StopAction::Failed { error } => match error {
                SupervisorError::TerminationFailed { reason } => ActionModel::SignalFailed {
                    reason: reason@,
                },
                _ => ActionModel::TimedOut,
            },
        }
    }
}

/// Spec-level state of a supervisor.
pub struct CoreModel {
    pub phase: LifecycleState,
    pub handle: Option<HandleModel>,
    pub last_error: Option<Seq<char>>,
    pub escalated: bool,
    pub mode: Option<bool>,
    pub dev_program: Seq<char>,
    pub production_program: Seq<char>,
}

/// Reason recorded when a spawn failure came without a message.
pub open spec fn spawn_reason(reason: Seq<char>) -> Seq<char> {
    if reason.len() == 0 {
        "spawn failed"@
    } else {
        reason
    }
}

pub open spec fn timed_out_text() -> Seq<char> {
    "termination timed out"@
}

impl CoreModel {
    /// A live handle is tracked exactly while the process runs or is being stopped;
    /// an escalation only exists during a stop.
    pub open spec fn wf(self) -> bool {
        &&& (self.handle is Some <==> (self.phase == LifecycleState::Running
            || self.phase == LifecycleState::Stopping))
        &&& (self.escalated ==> self.phase == LifecycleState::Stopping)
        &&& (self.phase == LifecycleState::Failed ==> self.last_error is Some)
        &&& (self.phase != LifecycleState::Stopped ==> self.mode is Some)
    }
}

/// The state of a supervisor that was just created.
pub open spec fn initial_model(dev_program: Seq<char>, production_program: Seq<char>) -> CoreModel {
    CoreModel {
        phase: LifecycleState::Stopped,
        handle: None,
        last_error: None,
        escalated: false,
        mode: None,
        dev_program,
        production_program,
    }
}

/// A start is accepted only from an idle state.
pub open spec fn start_admitted(m: CoreModel) -> bool {
    m.phase == LifecycleState::Stopped || m.phase == LifecycleState::Failed
}

pub open spec fn begin_start_model(m: CoreModel, dev_mode: bool) -> CoreModel {
    if start_admitted(m) {
        CoreModel {
            phase: LifecycleState::Starting,
            last_error: None,
            escalated: false,
            mode: Some(dev_mode),
            ..m
        }
    } else {
        m
    }
}

pub open spec fn finish_start_model(m: CoreModel, o: SpawnModel) -> CoreModel {
    if m.phase != LifecycleState::Starting {
        m
    } else {
        match o {
            SpawnModel::Spawned { pid, bound_address, started_at_ms } => CoreModel {
                phase: LifecycleState::Running,
                handle: Some(
                    HandleModel {
                        pid,
                        dev_mode: m.mode.unwrap(),
                        program: program_for(m.dev_program, m.production_program, m.mode.unwrap()),
                        bound_address,
                        started_at_ms,
                    },
                ),
                ..m
            },
            SpawnModel::Failed { reason } => CoreModel {
                phase: LifecycleState::Failed,
                last_error: Some(spawn_reason(reason)),
                ..m
            },
        }
    }
}

pub open spec fn stopped_model(m: CoreModel) -> CoreModel {
    CoreModel { phase: LifecycleState::Stopped, handle: None, escalated: false, ..m }
}

pub open spec fn begin_stop_model(m: CoreModel) -> (CoreModel, ActionModel) {
    if m.phase == LifecycleState::Stopped || m.phase == LifecycleState::Failed {
        (stopped_model(m), ActionModel::Done)
    } else if m.phase == LifecycleState::Running {
        (
            CoreModel { phase: LifecycleState::Stopping, escalated: false, ..m },
            ActionModel::Terminate { pid: m.handle.unwrap().pid },
        )
    } else {
        (m, ActionModel::Busy)
    }
}

pub open spec fn stop_event_model(m: CoreModel, ev: EventModel) -> (CoreModel, ActionModel) {
    if m.phase != LifecycleState::Stopping {
        (m, ActionModel::Busy)
    } else {
        match ev {
            EventModel::Exited => (stopped_model(m), ActionModel::Done),
            EventModel::NotFound => (stopped_model(m), ActionModel::Done),
            EventModel::GraceElapsed => if !m.escalated {
                (
                    CoreModel { escalated: true, ..m },
                    ActionModel::ForceKill { pid: m.handle.unwrap().pid },
                )
            } else {
                (
                    CoreModel {
                        phase: LifecycleState::Running,
                        escalated: false,
                        last_error: Some(timed_out_text()),
                        ..m
                    },
                    ActionModel::TimedOut,
                )
            },
            EventModel::SignalFailed { reason } => (
                CoreModel {
                    phase: LifecycleState::Running,
                    escalated: false,
                    last_error: Some(reason),
                    ..m
                },
                ActionModel::SignalFailed { reason },
            ),
        }
    }
}

pub open spec fn snapshot_model(m: CoreModel) -> SnapshotModel {
    SnapshotModel {
        state: m.phase,
        bound_address: match m.handle {
            Some(h) => h.bound_address,
            None => None,
        },
        last_error: m.last_error,
    }
}

/// Launch mode for a restart: the mode of the latest start, else the given one.
pub open spec fn restart_mode_model(m: CoreModel, fallback: bool) -> bool {
    match m.mode {
        Some(b) => b,
        None => fallback,
    }
}

/// The state machine of one supervised backend process.
pub struct SupervisorCore {
    state: LifecycleState,
    handle: Option<ProcessHandle>,
    last_error: Option<String>,
    escalated: bool,
    mode: Option<bool>,
    config: LaunchConfig,
}

impl View for SupervisorCore {
    type V = CoreModel;

    closed spec fn view(&self) -> CoreModel {
        CoreModel {
            phase: self.state,
            handle: match self.handle {
                Some(h) => Some(h@),
                None => None,
            },
            last_error: opt_text(self.last_error),
            escalated: self.escalated,
            mode: self.mode,
            dev_program: self.config.dev_program@,
            production_program: self.config.production_program@,
        }
    }
}

impl SupervisorCore {
    pub fn new(config: LaunchConfig) -> (r: Self)
        ensures
            r@ == initial_model(config.dev_program@, config.production_program@),
            r@.wf(),
    {
        SupervisorCore {
            state: LifecycleState::Stopped,
            handle: None,
            last_error: None,
            escalated: false,
            mode: None,
            config,
        }
    }

    /// Moves an idle supervisor to `Starting` and hands out what to launch.
    pub fn begin_start(&mut self, dev_mode: bool) -> (r: Result<LaunchPlan, SupervisorError>)
        ensures
            final(self)@ == begin_start_model(old(self)@, dev_mode),
            r is Ok <==> start_admitted(old(self)@),
            r matches Ok(plan) ==> plan.program@ == program_for(
                old(self)@.dev_program,
                old(self)@.production_program,
                dev_mode,
            ) && text_seq(plan.args@) == plan_args(dev_mode),
            r matches Err(e) ==> e is AlreadyRunning,
    {
        match self.state {
            LifecycleState::Stopped | LifecycleState::Failed => {
                let plan = select_launch(&self.config, dev_mode);
                self.state = LifecycleState::Starting;
                self.last_error = None;
                self.escalated = false;
                self.mode = Some(dev_mode);
                Ok(plan)
            },
            _ => Err(SupervisorError::AlreadyRunning),
        }
    }

    /// Records what the launcher reported for the start in flight.
    pub fn finish_start(&mut self, outcome: SpawnOutcome) -> (r: Result<(), SupervisorError>)
        requires
            old(self)@.wf(),
        ensures
            final(self)@ == finish_start_model(old(self)@, outcome@),
            r is Ok <==> (old(self)@.phase == LifecycleState::Starting && outcome@ is Spawned),
            old(self)@.phase != LifecycleState::Starting ==> (r matches Err(e)
                && e is AlreadyRunning),
            old(self)@.phase == LifecycleState::Starting ==> (outcome@ matches SpawnModel::Failed {
                reason,
            } ==> (r matches Err(SupervisorError::SpawnFailed { reason: got })
                && got@ == spawn_reason(reason))),
    {
        if self.state != LifecycleState::Starting {
            return Err(SupervisorError::AlreadyRunning);
        }
        match outcome {
            SpawnOutcome::Spawned { pid, bound_address, started_at_ms } => {
                let dev_mode = self.mode.unwrap();
                let plan = select_launch(&self.config, dev_mode);
                self.handle = Some(
                    ProcessHandle {
                        pid,
                        dev_mode,
                        program: plan.program,
                        bound_address,
                        started_at_ms,
                    },
                );
                self.state = LifecycleState::Running;
                Ok(())
            },
            SpawnOutcome::Failed { reason } => {
                let text = if reason.as_str().is_empty() {
                    "spawn failed".to_owned()
                } else {
                    reason
                };
                self.last_error = Some(text.clone());
                self.state = LifecycleState::Failed;
                Err(SupervisorError::SpawnFailed { reason: text })
            },
        }
    }

    /// First step of a stop: says what the process layer must do.
    pub fn begin_stop(&mut self) -> (r: StopAction)
        requires
            old(self)@.wf(),
        ensures
            (final(self)@, r@) == begin_stop_model(old(self)@),
    {
        match self.state {
            LifecycleState::Stopped | LifecycleState::Failed => {
                self.state = LifecycleState::Stopped;
                self.handle = None;
                self.escalated = false;
                StopAction::Done
            },
            LifecycleState::Running => {
                self.state = LifecycleState::Stopping;
                self.escalated = false;
                match &self.handle {
                    Some(h) => StopAction::Terminate { pid: h.pid },
                    None => StopAction::Busy,
                }
            },
            _ => StopAction::Busy,
        }
    }

    /// Folds an observation of the process layer into a stop in flight.
    pub fn on_stop_event(&mut self, event: StopEvent) -> (r: StopAction)
        requires
            old(self)@.wf(),
        ensures
            (final(self)@, r@) == stop_event_model(old(self)@, event@),
    {
        if self.state != LifecycleState::Stopping {
            return StopAction::Busy;
        }
        let pid: u32 = match &self.handle {
            Some(h) => h.pid,
            None => 0,
        };
        match event {
            StopEvent::Exited | StopEvent::NotFound => {
                self.state = LifecycleState::Stopped;
                self.handle = None;
                self.escalated = false;
                StopAction::Done
            },
            StopEvent::GraceElapsed => {
                if !self.escalated {
                    self.escalated = true;
                    StopAction::ForceKill { pid }
                } else {
                    self.state = LifecycleState::Running;
                    self.escalated = false;
                    self.last_error = Some("termination timed out".to_owned());
                    StopAction::Failed { error: SupervisorError::TerminationTimedOut }
                }
            },
            StopEvent::SignalFailed { reason } => {
                self.state = LifecycleState::Running;
                self.escalated = false;
                self.last_error = Some(reason.clone());
                StopAction::Failed { error: SupervisorError::TerminationFailed { reason } }
            },
        }
    }

    /// Point-in-time copy of the state, the bound address and the last error.
    pub fn status(&self) -> (r: StatusSnapshot)
        ensures
            r@ == snapshot_model(self@),
    {
        let bound_address = match &self.handle {
            Some(h) => clone_opt_text(&h.bound_address),
            None => None,
        };
        StatusSnapshot {
            state: self.state,
            bound_address,
            last_error: clone_opt_text(&self.last_error),
        }
    }

    /// The launch mode that a restart reuses.
    pub fn restart_mode(&self, fallback: bool) -> (r: bool)
        ensures
            r == restart_mode_model(self@, fallback),
    {
        match self.mode {
            Some(b) => b,
            None => fallback,
        }
    }
}

} // verus!
