//! DevBoot supervision engine: a verified core for managing long-running,
//! user-defined child processes.
//!
//! Each supervised "project" is a working directory plus an ordered list of
//! shell commands. The library keeps one record per project: its status, a
//! bounded scrollback log, and the restart bookkeeping used by the bounded
//! crash-restart policy. All process spawning, pipe reading and sleeping is
//! performed by a thin unverified driver; the decisions — who may start, what
//! a crash does to the state, when a respawn is owed, what is logged and what
//! events are published — live here and carry proofs.

mod clock;
pub mod config;
pub mod detector;
pub mod errors;
pub mod events;
pub mod launcher;
pub mod laws;
pub mod log_buffer;
pub mod manager;
pub mod process;
pub mod startup;
pub mod strutil;

use vstd::prelude::*;

verus! {

/// Capacity bound of a single project's scrollback log; appending past it
/// evicts the oldest line.
pub const MAX_LOG_LINES: usize = 1000;

/// A crash-triggered respawn happens only while `restart_count` is below this
/// cap; the crash that finds the counter at the cap settles the record in
/// `Error`.
pub const MAX_RESTART_ATTEMPTS: u32 = 5;

/// Fixed (non-exponential) backoff slept by the driver between observing a
/// crash and respawning.
pub const RESTART_DELAY_MS: u64 = 2000;

/// Fixed interval at which the monitor loop polls the child's exit status.
pub const POLL_INTERVAL_MS: u64 = 500;

/// Fixed pause between the stop and the start of an explicit restart request.
pub const RESTART_PAUSE_MS: u64 = 500;

} // verus!
