use vstd::prelude::*;
use crate::status::LifecycleState;
use crate::supervisor::{
    begin_start_model, begin_stop_model, finish_start_model, initial_model, snapshot_model,
    start_admitted, stop_event_model, ActionModel, CoreModel, EventModel, SpawnModel,
};

verus! {

/// One operation applied to a supervisor while it holds its lock.
pub enum Op {
    Start { dev_mode: bool },
    SpawnReported { outcome: SpawnModel },
    Stop,
    StopObserved { event: EventModel },
}

pub open spec fn apply(m: CoreModel, op: Op) -> CoreModel {
    match op {
        Op::Start { dev_mode } => begin_start_model(m, dev_mode),
        Op::SpawnReported { outcome } => finish_start_model(m, outcome),
        Op::Stop => begin_stop_model(m).0,
        Op::StopObserved { event } => stop_event_model(m, event).0,
    }
}

/// The state after applying a sequence of operations in order.
pub open spec fn run(m: CoreModel, ops: Seq<Op>) -> CoreModel
    decreases ops.len(),
{
    if ops.len() == 0 {
        m
    } else {
        apply(run(m, ops.drop_last()), ops.last())
    }
}

/// The lifecycle edges: start from idle, spawn success or failure, stop from any
/// state, and a stop that could not end the child handing it back as running.
pub open spec fn allowed_edge(a: LifecycleState, b: LifecycleState) -> bool {
    ||| a == b
    ||| (a == LifecycleState::Stopped && b == LifecycleState::Starting)
    ||| (a == LifecycleState::Failed && b == LifecycleState::Starting)
    ||| (a == LifecycleState::Starting && b == LifecycleState::Running)
    ||| (a == LifecycleState::Starting && b == LifecycleState::Failed)
    ||| (a == LifecycleState::Running && b == LifecycleState::Stopping)
    ||| (a == LifecycleState::Stopping && b == LifecycleState::Stopped)
    ||| (a == LifecycleState::Failed && b == LifecycleState::Stopped)
    ||| (a == LifecycleState::Stopping && b == LifecycleState::Running)
}

/// Every operation keeps the supervisor well formed, follows a lifecycle edge, and
/// only creates a process handle while none is tracked and a start is in flight.
pub proof fn lemma_step_is_transition(m: CoreModel, op: Op)
    requires
        m.wf(),
    ensures
        apply(m, op).wf(),
        allowed_edge(m.phase, apply(m, op).phase),
        apply(m, op).handle is Some && apply(m, op).handle != m.handle ==> (m.handle is None
            && m.phase == LifecycleState::Starting),
{
}

/// Whatever operations the lock serialises, starting from a new supervisor, the
/// state stays well formed: at most one live handle, tracked exactly while the
/// process runs or is being stopped.
pub proof fn lemma_every_run_is_well_formed(
    dev_program: Seq<char>,
    production_program: Seq<char>,
    ops: Seq<Op>,
)
    ensures
        run(initial_model(dev_program, production_program), ops).wf(),
    decreases ops.len(),
{
    if ops.len() > 0 {
        lemma_every_run_is_well_formed(dev_program, production_program, ops.drop_last());
        lemma_step_is_transition(
            run(initial_model(dev_program, production_program), ops.drop_last()),
            ops.last(),
        );
    }
}

/// Stopping twice: once a stop has finished, another stop succeeds at once, changes
/// nothing and asks for no signal.
pub proof fn lemma_stop_idempotent(m: CoreModel, event: EventModel)
    requires
        m.wf(),
    ensures
        begin_stop_model(m).1 is Done ==> begin_stop_model(begin_stop_model(m).0) == (
            begin_stop_model(m).0,
            ActionModel::Done,
        ),
        stop_event_model(m, event).1 is Done ==> begin_stop_model(stop_event_model(m, event).0)
            == (stop_event_model(m, event).0, ActionModel::Done),
{
}

/// A finished stop leaves no process owned.
pub proof fn lemma_finished_stop_owns_nothing(m: CoreModel, event: EventModel)
    requires
        m.wf(),
    ensures
        begin_stop_model(m).1 is Done ==> (begin_stop_model(m).0.handle is None
            && begin_stop_model(m).0.phase == LifecycleState::Stopped),
        stop_event_model(m, event).1 is Done ==> (stop_event_model(m, event).0.handle is None
            && stop_event_model(m, event).0.phase == LifecycleState::Stopped),
{
}

/// A restart is a stop followed by a start in the same mode: once the stop has
/// finished the start is admitted, and for either spawn outcome the result is the
/// same as starting a new supervisor.
pub proof fn lemma_restart_is_stop_then_start(m: CoreModel, dev_mode: bool, outcome: SpawnModel)
    requires
        m.wf(),
        m.phase == LifecycleState::Stopped,
    ensures
        start_admitted(m),
        finish_start_model(begin_start_model(m, dev_mode), outcome) == finish_start_model(
            begin_start_model(initial_model(m.dev_program, m.production_program), dev_mode),
            outcome,
        ),
{
}

/// Once a start has been admitted the status reads `Starting`, and stop requests
/// and stale stop events leave it so until the spawn outcome is recorded.
pub proof fn lemma_status_during_start(m: CoreModel, dev_mode: bool, event: EventModel)
    requires
        m.wf(),
        start_admitted(m),
    ensures
        snapshot_model(begin_start_model(m, dev_mode)).state == LifecycleState::Starting,
        begin_stop_model(begin_start_model(m, dev_mode)).0 == begin_start_model(m, dev_mode),
        stop_event_model(begin_start_model(m, dev_mode), event).0 == begin_start_model(
            m,
            dev_mode,
        ),
{
}

} // verus!
