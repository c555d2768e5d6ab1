//! Task control blocks and the task lifecycle.

use vstd::prelude::*;

use crate::context::TaskContext;
use crate::metric::TaskMetric;

verus! {

/// Lifecycle state of a task slot.
#[derive(Clone, Copy, Debug, PartialEq, Eq, Structural)]
pub enum TaskStatus {
    UnInit,
    Ready,
    Running,
    Exited,
}

/// The legal lifecycle moves: `UnInit -> Ready` at boot, `Ready -> Running`
/// when scheduled, `Running -> Ready` when preempted or yielding,
/// `Running -> Exited` on termination.  `Exited` is terminal.
pub open spec fn legal_transition(from: TaskStatus, to: TaskStatus) -> bool {
    ||| (from == TaskStatus::UnInit && to == TaskStatus::Ready)
    ||| (from == TaskStatus::Ready && to == TaskStatus::Running)
    ||| (from == TaskStatus::Running && to == TaskStatus::Ready)
    ||| (from == TaskStatus::Running && to == TaskStatus::Exited)
}

/// One slot of the fixed task table: lifecycle status, the saved execution
/// context, and the CPU-time accounting record.
#[derive(Clone, Copy, Debug)]
pub struct TaskControlBlock {
    pub task_status: TaskStatus,
    pub task_cx: TaskContext,
    pub task_metric: TaskMetric,
}

} // verus!
