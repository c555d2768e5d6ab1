//! Core of a round-robin time-sharing kernel for a single-core machine.
//!
//! The library models the task scheduler, the per-task control blocks, the
//! CPU-time accounting, and the trap/syscall dispatch decisions of a small
//! teaching kernel.  Hardware effects — the timer, privileged registers, the
//! raw register-file switch, and console output — are kept outside: callers
//! read the clock and the trap cause registers, hand the plain values in, and
//! carry out the returned decision (switch contexts, return to user mode, or
//! power off).

use vstd::prelude::*;

pub mod context;
pub mod manager;
pub mod metric;
pub mod syscall;
pub mod task;
pub mod trap;

verus! {

/// Fixed capacity of the task table; every slot is pre-allocated at boot and
/// never deallocated, only transitioned to `Exited`.
pub const MAX_APP_NUM: usize = 16;

} // verus!
