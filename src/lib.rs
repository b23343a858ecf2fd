//! Supervisor for one backend process that lives alongside a desktop window:
//! a verified lifecycle state machine, a lock-protected shared handle on it,
//! launch selection, and the policy that keeps navigation in the app.

pub mod launch;
pub mod manager;
pub mod navigation;
pub mod status;
pub mod supervisor;
pub mod transitions;
