use cli_supervisor::launch::{select_launch, LaunchConfig};
use cli_supervisor::manager::{AppState, CliProcessManager};
use cli_supervisor::status::{LifecycleState, SupervisorError};
use cli_supervisor::supervisor::{SpawnOutcome, StopAction, StopEvent, SupervisorCore};

fn config() -> LaunchConfig {
    LaunchConfig::new(
        "/nonexistent/target/debug/backend".to_string(),
        "/opt/app/bin/backend".to_string(),
    )
}

fn spawned(pid: u32) -> SpawnOutcome {
    SpawnOutcome::Spawned {
        pid,
        bound_address: Some("127.0.0.1:5173".to_string()),
        started_at_ms: 1000,
    }
}

fn running_core(pid: u32) -> SupervisorCore {
    let mut core = SupervisorCore::new(config());
    core.begin_start(false).unwrap();
    core.finish_start(spawned(pid)).unwrap();
    core
}

#[test]
fn new_supervisor_is_stopped() {
    let core = SupervisorCore::new(config());
    let s = core.status();
    assert_eq!(s.state, LifecycleState::Stopped);
    assert!(s.bound_address.is_none());
    assert!(s.last_error.is_none());
}

#[test]
fn dev_launch_selects_local_binary_with_verbose_logging() {
    let plan = select_launch(&config(), true);
    assert_eq!(plan.program, "/nonexistent/target/debug/backend");
    assert_eq!(plan.args, vec!["--verbose".to_string()]);
}

#[test]
fn production_launch_selects_bundled_binary() {
    let plan = select_launch(&config(), false);
    assert_eq!(plan.program, "/opt/app/bin/backend");
    assert!(plan.args.is_empty());
}

#[test]
fn spawn_failure_in_dev_mode_reports_failed_with_reason() {
    let mut core = SupervisorCore::new(config());
    let plan = core.begin_start(true).unwrap();
    assert_eq!(plan.program, "/nonexistent/target/debug/backend");
    let r = core.finish_start(SpawnOutcome::Failed {
        reason: "No such file or directory (os error 2)".to_string(),
    });
    match r {
        Err(SupervisorError::SpawnFailed { reason }) => {
            assert_eq!(reason, "No such file or directory (os error 2)")
        }
        _ => panic!("expected SpawnFailed"),
    }
    let s = core.status();
    assert_eq!(s.state, LifecycleState::Failed);
    assert!(!s.last_error.unwrap().is_empty());
}

#[test]
fn spawn_failure_without_message_gets_a_reason() {
    let mut core = SupervisorCore::new(config());
    core.begin_start(true).unwrap();
    match core.finish_start(SpawnOutcome::Failed { reason: String::new() }) {
        Err(SupervisorError::SpawnFailed { reason }) => assert_eq!(reason, "spawn failed"),
        _ => panic!("expected SpawnFailed"),
    }
    assert_eq!(core.status().last_error.unwrap(), "spawn failed");
}

#[test]
fn failed_supervisor_can_start_again() {
    let mut core = SupervisorCore::new(config());
    core.begin_start(true).unwrap();
    let _ = core.finish_start(SpawnOutcome::Failed { reason: "denied".to_string() });
    assert!(core.begin_start(true).is_ok());
    assert_eq!(core.status().state, LifecycleState::Starting);
    assert!(core.status().last_error.is_none());
}

#[test]
fn successful_start_runs_and_reports_address() {
    let core = running_core(42);
    let s = core.status();
    assert_eq!(s.state, LifecycleState::Running);
    assert_eq!(s.bound_address.unwrap(), "127.0.0.1:5173");
}

#[test]
fn second_start_is_rejected() {
    let mut core = running_core(42);
    assert!(matches!(core.begin_start(false), Err(SupervisorError::AlreadyRunning)));
    assert_eq!(core.status().state, LifecycleState::Running);
}

#[test]
fn start_while_starting_is_rejected() {
    let mut core = SupervisorCore::new(config());
    core.begin_start(false).unwrap();
    assert!(matches!(core.begin_start(false), Err(SupervisorError::AlreadyRunning)));
}

#[test]
fn spawn_report_without_start_is_not_owned() {
    let mut core = SupervisorCore::new(config());
    assert!(matches!(core.finish_start(spawned(7)), Err(SupervisorError::AlreadyRunning)));
    assert_eq!(core.status().state, LifecycleState::Stopped);
}

#[test]
fn status_during_start_reads_starting() {
    let mut core = SupervisorCore::new(config());
    core.begin_start(true).unwrap();
    assert_eq!(core.status().state, LifecycleState::Starting);
    assert!(matches!(core.begin_stop(), StopAction::Busy));
    assert_eq!(core.status().state, LifecycleState::Starting);
}

#[test]
fn graceful_stop_reaps_child() {
    let mut core = running_core(42);
    assert!(matches!(core.begin_stop(), StopAction::Terminate { pid: 42 }));
    assert_eq!(core.status().state, LifecycleState::Stopping);
    assert!(matches!(core.on_stop_event(StopEvent::Exited), StopAction::Done));
    let s = core.status();
    assert_eq!(s.state, LifecycleState::Stopped);
    assert!(s.bound_address.is_none());
}

#[test]
fn stubborn_child_is_force_killed() {
    let mut core = running_core(42);
    assert!(matches!(core.begin_stop(), StopAction::Terminate { pid: 42 }));
    assert!(matches!(
        core.on_stop_event(StopEvent::GraceElapsed),
        StopAction::ForceKill { pid: 42 }
    ));
    assert!(matches!(core.on_stop_event(StopEvent::Exited), StopAction::Done));
    assert_eq!(core.status().state, LifecycleState::Stopped);
}

#[test]
fn child_surviving_forced_kill_times_out() {
    let mut core = running_core(42);
    core.begin_stop();
    core.on_stop_event(StopEvent::GraceElapsed);
    assert!(matches!(
        core.on_stop_event(StopEvent::GraceElapsed),
        StopAction::Failed { error: SupervisorError::TerminationTimedOut }
    ));
    let s = core.status();
    assert_eq!(s.state, LifecycleState::Running);
    assert_eq!(s.last_error.unwrap(), "termination timed out");
}

#[test]
fn signal_failure_keeps_child_owned() {
    let mut core = running_core(42);
    core.begin_stop();
    match core.on_stop_event(StopEvent::SignalFailed { reason: "EPERM".to_string() }) {
        StopAction::Failed { error: SupervisorError::TerminationFailed { reason } } => {
            assert_eq!(reason, "EPERM")
        }
        _ => panic!("expected TerminationFailed"),
    }
    assert_eq!(core.status().state, LifecycleState::Running);
}

#[test]
fn vanished_child_counts_as_stopped() {
    let mut core = running_core(42);
    core.begin_stop();
    assert!(matches!(core.on_stop_event(StopEvent::NotFound), StopAction::Done));
    assert_eq!(core.status().state, LifecycleState::Stopped);
}

#[test]
fn stop_twice_is_a_no_op() {
    let mut core = running_core(42);
    core.begin_stop();
    core.on_stop_event(StopEvent::Exited);
    assert!(matches!(core.begin_stop(), StopAction::Done));
    assert!(matches!(core.begin_stop(), StopAction::Done));
    assert_eq!(core.status().state, LifecycleState::Stopped);
}

#[test]
fn stop_on_fresh_supervisor_succeeds() {
    let mut core = SupervisorCore::new(config());
    assert!(matches!(core.begin_stop(), StopAction::Done));
}

#[test]
fn stop_after_failure_returns_to_stopped() {
    let mut core = SupervisorCore::new(config());
    core.begin_start(true).unwrap();
    let _ = core.finish_start(SpawnOutcome::Failed { reason: "denied".to_string() });
    assert!(matches!(core.begin_stop(), StopAction::Done));
    assert_eq!(core.status().state, LifecycleState::Stopped);
}

#[test]
fn stale_stop_event_is_ignored() {
    let mut core = running_core(42);
    assert!(matches!(core.on_stop_event(StopEvent::Exited), StopAction::Busy));
    assert_eq!(core.status().state, LifecycleState::Running);
}

#[test]
fn restart_matches_fresh_start() {
    let mut restarted = running_core(42);
    let mode = restarted.restart_mode(true);
    assert!(!mode);
    restarted.begin_stop();
    restarted.on_stop_event(StopEvent::Exited);
    let plan = restarted.begin_start(mode).unwrap();
    assert_eq!(plan.program, "/opt/app/bin/backend");
    restarted.finish_start(spawned(43)).unwrap();

    let mut fresh = SupervisorCore::new(config());
    fresh.begin_start(false).unwrap();
    fresh.finish_start(spawned(43)).unwrap();

    let a = restarted.status();
    let b = fresh.status();
    assert_eq!(a.state, b.state);
    assert_eq!(a.bound_address, b.bound_address);
    assert_eq!(a.last_error, b.last_error);
}

#[test]
fn restart_failure_matches_fresh_failure() {
    let mut restarted = running_core(42);
    restarted.begin_stop();
    restarted.on_stop_event(StopEvent::Exited);
    restarted.begin_start(false).unwrap();
    let _ = restarted.finish_start(SpawnOutcome::Failed { reason: "gone".to_string() });
    let s = restarted.status();
    assert_eq!(s.state, LifecycleState::Failed);
    assert_eq!(s.last_error.unwrap(), "gone");
}

#[test]
fn restart_mode_falls_back_before_any_start() {
    let core = SupervisorCore::new(config());
    assert!(core.restart_mode(true));
    assert!(!core.restart_mode(false));
}

#[test]
fn manager_clones_share_state() {
    let manager = CliProcessManager::new(config());
    let other = manager.clone();
    let plan = manager.begin_start(true).unwrap();
    assert_eq!(plan.program, "/nonexistent/target/debug/backend");
    assert_eq!(other.status().state, LifecycleState::Starting);
    assert!(matches!(other.begin_start(true), Err(SupervisorError::AlreadyRunning)));
    assert!(matches!(other.begin_stop(), StopAction::Busy));
    other.finish_start(spawned(9)).unwrap();
    assert_eq!(manager.status().state, LifecycleState::Running);
}

#[test]
fn manager_stop_sequence() {
    let manager = CliProcessManager::new(config());
    manager.begin_start(false).unwrap();
    manager.finish_start(spawned(9)).unwrap();
    assert!(matches!(manager.begin_stop(), StopAction::Terminate { pid: 9 }));
    assert!(matches!(
        manager.on_stop_event(StopEvent::GraceElapsed),
        StopAction::ForceKill { pid: 9 }
    ));
    assert!(matches!(manager.on_stop_event(StopEvent::Exited), StopAction::Done));
    assert!(matches!(manager.begin_stop(), StopAction::Done));
    assert_eq!(manager.status().state, LifecycleState::Stopped);
}

#[test]
fn manager_spawn_failure() {
    let manager = CliProcessManager::new(config());
    manager.begin_start(true).unwrap();
    let r = manager.finish_start(SpawnOutcome::Failed { reason: "missing".to_string() });
    assert!(matches!(r, Err(SupervisorError::SpawnFailed { .. })));
    let s = manager.status();
    assert_eq!(s.state, LifecycleState::Failed);
    assert_eq!(s.last_error.unwrap(), "missing");
}

#[test]
fn app_state_clone_shares_manager() {
    let state = AppState { manager: CliProcessManager::new(config()) };
    let copy = state.clone();
    state.manager.begin_start(true).unwrap();
    assert_eq!(copy.manager.status().state, LifecycleState::Starting);
}
