use std::sync::Arc;
use vstd::prelude::*;
use vstd::rwlock::RwLock;
use crate::launch::{plan_args, program_for, text_seq, LaunchConfig, LaunchPlan};
use crate::status::{LifecycleState, SnapshotModel, StatusSnapshot, SupervisorError};
use crate::supervisor::{
    spawn_reason, ActionModel, EventModel, SpawnModel, SpawnOutcome, StopAction, StopEvent,
    SupervisorCore,
};

verus! {

/// The lock's invariant: the core is well formed and keeps its launch configuration.
pub open spec fn core_pred(dev_program: Seq<char>, production_program: Seq<char>) -> spec_fn(
    SupervisorCore,
) -> bool {
    |v: SupervisorCore|
        v@.wf() && v@.dev_program == dev_program && v@.production_program == production_program
}

/// What every snapshot of a well-formed supervisor satisfies.
pub open spec fn snapshot_consistent(s: SnapshotModel) -> bool {
    &&& (s.state == LifecycleState::Failed ==> s.last_error is Some)
    &&& (s.bound_address is Some ==> (s.state == LifecycleState::Running || s.state
        == LifecycleState::Stopping))
}

type SharedCore = Arc<RwLock<SupervisorCore, spec_fn(SupervisorCore) -> bool>>;

/// Relies on `Arc::clone`: the new pointer refers to the same lock.
#[verifier::external_body]
fn share_core(a: &SharedCore) -> (r: SharedCore)
    ensures
        *r == **a,
{
    Arc::clone(a)
}

/// Thread-safe handle on one supervisor. Clones share the same lock and state;
/// every transition runs with the write lock held.
pub struct CliProcessManager {
    inner: SharedCore,
    programs: Ghost<(Seq<char>, Seq<char>)>,
}

impl CliProcessManager {
    #[verifier::type_invariant]
    spec fn lock_matches(self) -> bool {
        (*self.inner).pred() == core_pred(self.programs@.0, self.programs@.1)
    }

    /// Program launched in development mode.
    pub closed spec fn dev_program(&self) -> Seq<char> {
        self.programs@.0
    }

    /// Program launched in production mode.
    pub closed spec fn production_program(&self) -> Seq<char> {
        self.programs@.1
    }

    pub fn new(config: LaunchConfig) -> (r: Self)
        ensures
            r.dev_program() == config.dev_program@,
            r.production_program() == config.production_program@,
    {
        let programs = Ghost((config.dev_program@, config.production_program@));
        let core = SupervisorCore::new(config);
        let lock = RwLock::new(core, Ghost(core_pred(programs@.0, programs@.1)));
        CliProcessManager { inner: Arc::new(lock), programs }
    }

    /// Point-in-time snapshot; it waits only for a transition step, never for process I/O.
    pub fn status(&self) -> (r: StatusSnapshot)
        ensures
            snapshot_consistent(r@),
    {
        proof {
            use_type_invariant(self);
        }
        let handle = self.inner.acquire_read();
        let r = handle.borrow().status();
        handle.release_read();
        r
    }

    /// Admits a start when the supervisor is idle and hands out what to launch;
    /// the state reads `Starting` until `finish_start` records the outcome.
    pub fn begin_start(&self, dev_mode: bool) -> (r: Result<LaunchPlan, SupervisorError>)
        ensures
            r matches Ok(plan) ==> plan.program@ == program_for(
                self.dev_program(),
                self.production_program(),
                dev_mode,
            ) && text_seq(plan.args@) == plan_args(dev_mode),
            r matches Err(e) ==> e is AlreadyRunning,
    {
        proof {
            use_type_invariant(self);
        }
        let (mut core, handle) = self.inner.acquire_write();
        let r = core.begin_start(dev_mode);
        handle.release_write(core);
        r
    }

    /// Records the launcher's report. `Ok` only for a spawned child of the start in
    /// flight; `AlreadyRunning` means no start was in flight and the child is not owned.
    pub fn finish_start(&self, outcome: SpawnOutcome) -> (r: Result<(), SupervisorError>)
        ensures
            r is Ok ==> outcome@ is Spawned,
            outcome@ is Spawned ==> (r is Ok || (r is Err && r->Err_0 is AlreadyRunning)),
            outcome@ matches SpawnModel::Failed { reason } ==> r is Err && (r->Err_0 is AlreadyRunning
                || (r->Err_0 is SpawnFailed && r->Err_0->SpawnFailed_reason@ == spawn_reason(
                reason,
            ))),
    {
        proof {
            use_type_invariant(self);
        }
        let (mut core, handle) = self.inner.acquire_write();
        let r = core.finish_start(outcome);
        handle.release_write(core);
        r
    }

    /// First step of a stop: `Done` when nothing is owned, `Terminate` for the
    /// running child, `Busy` while another transition is in flight.
    pub fn begin_stop(&self) -> (r: StopAction)
        ensures
            r@ is Done || r@ is Terminate || r@ is Busy,
    {
        proof {
            use_type_invariant(self);
        }
        let (mut core, handle) = self.inner.acquire_write();
        let r = core.begin_stop();
        handle.release_write(core);
        r
    }

    /// Folds an observation into the stop in flight and says what to do next.
    pub fn on_stop_event(&self, event: StopEvent) -> (r: StopAction)
        ensures
            (event@ is Exited || event@ is NotFound) ==> (r@ is Done || r@ is Busy),
            event@ is GraceElapsed ==> (r@ is ForceKill || r@ is TimedOut || r@ is Busy),
            event@ matches EventModel::SignalFailed { reason } ==> (r@ == ActionModel::SignalFailed {
                reason,
            } || r@ is Busy),
    {
        proof {
            use_type_invariant(self);
        }
        let (mut core, handle) = self.inner.acquire_write();
        let r = core.on_stop_event(event);
        handle.release_write(core);
        r
    }
}

impl Clone for CliProcessManager {
    fn clone(&self) -> (r: Self)
        ensures
            r.dev_program() == self.dev_program(),
            r.production_program() == self.production_program(),
    {
        proof {
            use_type_invariant(self);
        }
        CliProcessManager { inner: share_core(&self.inner), programs: self.programs }
    }
}

/// State that the host application shares with its commands and event handlers.
#[derive(Clone)]
pub struct AppState {
    pub manager: CliProcessManager,
}

} // verus!
