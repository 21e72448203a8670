//! Lifecycle supervisor for a backend service process.
//!
//! The host starts the backend, reconciles a process left over from an
//! earlier session, and on exit or before an update tears it down until its
//! port and executable are released. The decisions are made here, as state
//! machines whose actions the host performs; the host reports each result
//! back as the next event.

pub mod child_slot;
pub mod endpoint;
pub mod job_group;
pub mod launch_plan;
pub mod launcher;
pub mod lock_probe;
pub mod pid_record;
pub mod retry;
pub mod shutdown;
pub mod updater_probe;
