use vstd::prelude::*;

verus! {

/// Lifecycle phase of the supervised backend process.
#[derive(PartialEq, Eq, Structural, Clone, Copy, Debug)]
pub enum LifecycleState {
    Stopped,
    Starting,
    Running,
    Stopping,
    Failed,
}

/// Errors raised by the supervisor's operations.
#[derive(Clone, Debug)]
pub enum SupervisorError {
    /// The backend executable could not be launched.
    SpawnFailed { reason: String },
    /// A process is already tracked, or a transition is in flight.
    AlreadyRunning,
    /// The child survived both the graceful request and the forced kill.
    TerminationTimedOut,
    /// The operating system refused to signal or reap the child.
    TerminationFailed { reason: String },
    /// The tracked process no longer exists.
    ProcessNotFound,
}

/// Copy-out view of the supervisor's state for callers such as the UI.
#[derive(Clone, Debug)]
pub struct StatusSnapshot {
    pub state: LifecycleState,
    pub bound_address: Option<String>,
    pub last_error: Option<String>,
}

/// Spec-level content of a snapshot.
pub struct SnapshotModel {
    pub state: LifecycleState,
    pub bound_address: Option<Seq<char>>,
    pub last_error: Option<Seq<char>>,
}

pub open spec fn opt_text(o: Option<String>) -> Option<Seq<char>> {
    match o {
        Some(s) => Some(s@),
        None => None,
    }
}

impl View for StatusSnapshot {
    type V = SnapshotModel;

    open spec fn view(&self) -> SnapshotModel {
        SnapshotModel {
            state: self.state,
            bound_address: opt_text(self.bound_address),
            last_error: opt_text(self.last_error),
        }
    }
}

pub fn clone_opt_text(o: &Option<String>) -> (r: Option<String>)
    ensures
        opt_text(r) == opt_text(*o),
{
    match o {
        Some(s) => Some(s.clone()),
        None => None,
    }
}

} // verus!
