//! Per-task CPU-time accounting.

use vstd::prelude::*;

verus! {

/// Accumulated user-mode and kernel-mode time of one task, in milliseconds,
/// plus the start stamp of the measurement window currently open.
///
/// Invariant by convention: `tmp_time_marker` is `0` iff no window is open.
/// Clock readings are therefore taken to be positive — the machine has been
/// up for at least a millisecond before the first task runs.
#[derive(Clone, Copy, Debug, PartialEq, Eq, Structural)]
pub struct TaskMetric {
    pub user_cost_ms: usize,
    pub kernel_cost_ms: usize,
    /// Start time of the open window; `0` when no window is open.
    pub tmp_time_marker: usize,
}

impl TaskMetric {
    /// The boot-time metric: nothing accumulated, no window open.
    pub open spec fn zeroed() -> TaskMetric {
        TaskMetric { user_cost_ms: 0, kernel_cost_ms: 0, tmp_time_marker: 0 }
    }

    /// Value after a window (user or kernel alike) is opened at `now_ms`.
    pub open spec fn started(self, now_ms: usize) -> TaskMetric {
        TaskMetric { tmp_time_marker: now_ms, ..self }
    }

    /// Value after the open user window is closed at `now_ms`; a close with
    /// no window open is a no-op.
    pub open spec fn user_ended(self, now_ms: usize) -> TaskMetric {
        if self.tmp_time_marker == 0 {
            self
        } else {
            TaskMetric {
                user_cost_ms: (self.user_cost_ms + (now_ms - self.tmp_time_marker)) as usize,
                tmp_time_marker: 0,
                ..self
            }
        }
    }

    /// Value after the open kernel window is closed at `now_ms`; a close with
    /// no window open is a no-op.
    pub open spec fn kernel_ended(self, now_ms: usize) -> TaskMetric {
        if self.tmp_time_marker == 0 {
            self
        } else {
            TaskMetric {
                kernel_cost_ms: (self.kernel_cost_ms + (now_ms - self.tmp_time_marker)) as usize,
                tmp_time_marker: 0,
                ..self
            }
        }
    }

    /// The clock has not run backwards since the window opened and closing it
    /// does not overflow the user accumulator.
    pub open spec fn can_end_user(self, now_ms: usize) -> bool {
        self.tmp_time_marker != 0 ==> {
            &&& self.tmp_time_marker <= now_ms
            &&& self.user_cost_ms + (now_ms - self.tmp_time_marker) <= usize::MAX
        }
    }

    /// As `can_end_user`, for the kernel accumulator.
    pub open spec fn can_end_kernel(self, now_ms: usize) -> bool {
        self.tmp_time_marker != 0 ==> {
            &&& self.tmp_time_marker <= now_ms
            &&& self.kernel_cost_ms + (now_ms - self.tmp_time_marker) <= usize::MAX
        }
    }

    /// Open the user-time window at `now_ms`.
    pub fn mark_user_start(&mut self, now_ms: usize)
        requires
            old(self).tmp_time_marker == 0,
            now_ms > 0,
        ensures
            *final(self) == old(self).started(now_ms),
    {
        self.tmp_time_marker = now_ms;
    }

    /// Close the user-time window at `now_ms`, adding the elapsed time to
    /// `user_cost_ms`.  With no window open this is a logged no-op:
    /// observability must never crash the kernel.
    pub fn mark_user_end(&mut self, now_ms: usize)
        requires
            old(self).can_end_user(now_ms),
        ensures
            *final(self) == old(self).user_ended(now_ms),
    {
        if self.tmp_time_marker == 0 {
            return ;
        }
        self.user_cost_ms = self.user_cost_ms + (now_ms - self.tmp_time_marker);
        self.tmp_time_marker = 0;
    }

    /// Open the kernel-time window at `now_ms`.
    pub fn mark_kernel_start(&mut self, now_ms: usize)
        requires
            old(self).tmp_time_marker == 0,
            now_ms > 0,
        ensures
            *final(self) == old(self).started(now_ms),
    {
        self.tmp_time_marker = now_ms;
    }

    /// Close the kernel-time window at `now_ms`, adding the elapsed time to
    /// `kernel_cost_ms`; a no-op when no window is open.
    pub fn mark_kernel_end(&mut self, now_ms: usize)
        requires
            old(self).can_end_kernel(now_ms),
        ensures
            *final(self) == old(self).kernel_ended(now_ms),
    {
        if self.tmp_time_marker == 0 {
            return ;
        }
        self.kernel_cost_ms = self.kernel_cost_ms + (now_ms - self.tmp_time_marker);
        self.tmp_time_marker = 0;
    }
}

/// Time-accounting law: over one full occupation of the processor — scheduled
/// in at `t_in`, trapping into the kernel at `t_trap`, switched out (or
/// exited) at `t_out` — the user and kernel accumulators together grow by
/// exactly the wall time occupied, `t_out - t_in`, and no window is left
/// open.  Summed over all occupations this is why a task that reaches
/// `Exited` satisfies `user_cost_ms + kernel_cost_ms == total wall time` with
/// `tmp_time_marker == 0`.
pub proof fn lemma_occupation_accounting(m: TaskMetric, t_in: usize, t_trap: usize, t_out: usize)
    requires
        m.tmp_time_marker == 0,
        0 < t_in <= t_trap <= t_out,
        m.user_cost_ms + (t_trap - t_in) <= usize::MAX,
        m.kernel_cost_ms + (t_out - t_trap) <= usize::MAX,
    ensures
        ({
            let end = m.started(t_in).user_ended(t_trap).started(t_trap).kernel_ended(t_out);
            &&& end.tmp_time_marker == 0
            &&& end.user_cost_ms + end.kernel_cost_ms == m.user_cost_ms + m.kernel_cost_ms + (
            t_out - t_in)
        }),
{
}

} // verus!
