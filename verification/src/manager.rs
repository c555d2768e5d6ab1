//! The task manager: the fixed task table, the strict round-robin policy,
//! and the bookkeeping around every context switch.

use vstd::prelude::*;

use crate::MAX_APP_NUM;
use crate::context::TaskContext;
use crate::metric::TaskMetric;
use crate::task::{legal_transition, TaskControlBlock, TaskStatus};

verus! {

/// What the scheduler decided.  The caller carries the decision out: for
/// `Switched` it performs the raw context switch, saving the live register
/// state into slot `from` and resuming slot `to`; for `AllCompleted` it
/// reports completion and powers the machine off (a clean halt, not an
/// error).
#[derive(Clone, Copy, Debug, PartialEq, Eq, Structural)]
pub enum ScheduleOutcome {
    Switched { from: usize, to: usize },
    AllCompleted,
}

/// Mathematical model of the scheduler state: the task table as a sequence,
/// the loaded-task count, and the cursor of the slot that is (or just was)
/// running.
#[verifier::ext_equal]
pub ghost struct ManagerModel {
    pub num_app: int,
    pub tasks: Seq<TaskControlBlock>,
    pub current: int,
}

impl ManagerModel {
    pub open spec fn wf(self) -> bool {
        &&& self.tasks.len() == MAX_APP_NUM
        &&& 1 <= self.num_app <= MAX_APP_NUM
        &&& 0 <= self.current < self.num_app
    }

    pub open spec fn statuses(self) -> Seq<TaskStatus> {
        self.tasks.map_values(|t: TaskControlBlock| t.task_status)
    }

    pub open spec fn status_of(self, i: int) -> TaskStatus {
        self.tasks[i].task_status
    }

    pub open spec fn metric_of(self, i: int) -> TaskMetric {
        self.tasks[i].task_metric
    }

    pub open spec fn current_metric(self) -> TaskMetric {
        self.metric_of(self.current)
    }

    /// Window nesting discipline: at most the current task has an open
    /// timing window.
    pub open spec fn only_current_open(self) -> bool {
        forall|i: int|
            0 <= i < self.tasks.len() && i != self.current ==> (
            #[trigger] self.tasks[i]).task_metric.tmp_time_marker == 0
    }
}

/// First `Ready` slot among the cyclic candidates `(start + k) % n`,
/// `(start + k + 1) % n`, ... — `None` once all `n` candidates were seen.
pub open spec fn rr_scan(s: Seq<TaskStatus>, n: int, start: int, k: int) -> Option<int>
    decreases n - k,
{
    if k < 0 || k >= n || n <= 0 {
        None
    } else {
        let id = (start + k) % n;
        if s[id] == TaskStatus::Ready {
            Some(id)
        } else {
            rr_scan(s, n, start, k + 1)
        }
    }
}

/// The strict round-robin policy: the nearest `Ready` slot cyclically after
/// `current`, the slot `current` itself considered last.
pub open spec fn rr_pick(s: Seq<TaskStatus>, current: int, n: int) -> Option<int> {
    rr_scan(s, n, current + 1, 0)
}

/// The table with only the status of slot `i` replaced.
pub open spec fn set_status(tasks: Seq<TaskControlBlock>, i: int, st: TaskStatus) -> Seq<
    TaskControlBlock,
> {
    tasks.update(i, TaskControlBlock { task_status: st, ..tasks[i] })
}

/// The table with only the metric of slot `i` replaced.
pub open spec fn set_metric(tasks: Seq<TaskControlBlock>, i: int, m: TaskMetric) -> Seq<
    TaskControlBlock,
> {
    tasks.update(i, TaskControlBlock { task_metric: m, ..tasks[i] })
}

/// Model of `mark_current_suspended`: the current slot becomes `Ready`.
pub open spec fn suspended_model(m: ManagerModel) -> ManagerModel {
    ManagerModel { tasks: set_status(m.tasks, m.current, TaskStatus::Ready), ..m }
}

/// Model of `mark_current_exited`: the current slot becomes `Exited`.
pub open spec fn exited_model(m: ManagerModel) -> ManagerModel {
    ManagerModel { tasks: set_status(m.tasks, m.current, TaskStatus::Exited), ..m }
}

/// Model of `run_first_task`: slot 0 becomes `Running` and its user-time
/// window opens at `now_ms`.
pub open spec fn first_task_model(m: ManagerModel, now_ms: usize) -> ManagerModel {
    let t1 = set_status(m.tasks, 0, TaskStatus::Running);
    let t2 = set_metric(t1, 0, t1[0].task_metric.started(now_ms));
    ManagerModel { tasks: t2, ..m }
}

/// Model of `run_next_task`: if the round-robin pick finds a `Ready` slot,
/// that slot becomes `Running` and current, the outgoing slot's kernel
/// window closes and the incoming slot's user window opens, both at
/// `now_ms`; with no `Ready` slot the state is untouched and the machine is
/// to halt.
pub open spec fn run_next_model(m: ManagerModel, now_ms: usize) -> (ManagerModel, ScheduleOutcome) {
    match rr_pick(m.statuses(), m.current, m.num_app) {
        Some(next) => {
            let t1 = set_status(m.tasks, next, TaskStatus::Running);
            let t2 = set_metric(t1, m.current, t1[m.current].task_metric.kernel_ended(now_ms));
            let t3 = set_metric(t2, next, t2[next].task_metric.started(now_ms));
            (
                ManagerModel { tasks: t3, current: next, ..m },
                ScheduleOutcome::Switched { from: m.current as usize, to: next as usize },
            )
        },
        None => (m, ScheduleOutcome::AllCompleted),
    }
}

/// A successful round-robin pick names a `Ready` slot inside the table.
pub proof fn lemma_rr_scan_picks_ready(s: Seq<TaskStatus>, n: int, start: int, k: int)
    requires
        n <= s.len(),
    ensures
        match rr_scan(s, n, start, k) {
            Some(id) => 0 <= id < n && s[id] == TaskStatus::Ready,
            None => true,
        },
    decreases n - k,
{
    if !(k < 0 || k >= n || n <= 0) {
        if s[(start + k) % n] != TaskStatus::Ready {
            lemma_rr_scan_picks_ready(s, n, start, k + 1);
        }
    }
}

/// Precondition of a reschedule: a well-formed table, a positive clock that
/// has not run backwards past the open window, room in the outgoing kernel
/// accumulator, and the window discipline.
pub open spec fn can_run_next(m: ManagerModel, now_ms: usize) -> bool {
    &&& m.wf()
    &&& now_ms > 0
    &&& m.only_current_open()
    &&& m.current_metric().can_end_kernel(now_ms)
}

/// A status-only change of the current slot affects neither well-formedness
/// nor any timing field, so a reschedule legal before it is legal after it.
pub proof fn lemma_set_status_preserves_can_run_next(
    m: ManagerModel,
    st: TaskStatus,
    now_ms: usize,
)
    requires
        can_run_next(m, now_ms),
    ensures
        can_run_next(ManagerModel { tasks: set_status(m.tasks, m.current, st), ..m }, now_ms),
{
    let m2 = ManagerModel { tasks: set_status(m.tasks, m.current, st), ..m };
    assert(forall|i: int|
        0 <= i < m.tasks.len() ==> (#[trigger] m2.tasks[i]).task_metric == m.tasks[
        i].task_metric);
}

/// Inner, mutable part of the task manager: the fixed task table and the
/// index of the current `Running` slot.  In the running kernel this sits
/// behind an exclusive-access guard that must be released before the raw
/// context switch; here exclusivity is the `&mut` borrow itself.
pub struct TaskManagerInner {
    pub tasks: Vec<TaskControlBlock>,
    pub current_task: usize,
}

/// The task manager: owns the pre-allocated task table and drives every
/// status transition, timing mark, and switch decision.  Created once at
/// boot and passed by reference to the trap-handling code.
pub struct TaskManager {
    pub num_app: usize,
    pub inner: TaskManagerInner,
}

impl View for TaskManager {
    type V = ManagerModel;

    open spec fn view(&self) -> ManagerModel {
        ManagerModel {
            num_app: self.num_app as int,
            tasks: self.inner.tasks@,
            current: self.inner.current_task as int,
        }
    }
}

impl TaskManager {
    pub open spec fn wf(self) -> bool {
        self@.wf()
    }

    /// Boot-time construction: all `MAX_APP_NUM` slots pre-allocated `Ready`
    /// with their initial contexts (built by the loader) and zeroed metrics;
    /// the cursor starts at slot 0.
    pub fn new(num_app: usize, init_cx: &Vec<TaskContext>) -> (r: TaskManager)
        requires
            1 <= num_app <= MAX_APP_NUM,
            init_cx@.len() == MAX_APP_NUM,
        ensures
            r.wf(),
            r@.num_app == num_app,
            r@.current == 0,
            forall|i: int|
                0 <= i < MAX_APP_NUM ==> r@.tasks[i] == (TaskControlBlock {
                    task_status: TaskStatus::Ready,
                    task_cx: init_cx@[i],
                    task_metric: TaskMetric::zeroed(),
                }),
    {
        let mut tasks: Vec<TaskControlBlock> = Vec::new();
        let mut i: usize = 0;
        while i < MAX_APP_NUM
            invariant
                i <= MAX_APP_NUM,
                tasks@.len() == i,
                init_cx@.len() == MAX_APP_NUM,
                forall|j: int|
                    0 <= j < i ==> tasks@[j] == (TaskControlBlock {
                        task_status: TaskStatus::Ready,
                        task_cx: init_cx@[j],
                        task_metric: TaskMetric::zeroed(),
                    }),
            decreases MAX_APP_NUM - i,
        {
            tasks.push(
                TaskControlBlock {
                    task_status: TaskStatus::Ready,
                    task_cx: init_cx[i],
                    task_metric: TaskMetric { user_cost_ms: 0, kernel_cost_ms: 0, tmp_time_marker: 0 },
                },
            );
            i += 1;
        }
        TaskManager { num_app, inner: TaskManagerInner { tasks, current_task: 0 } }
    }

    /// Bookkeeping of the very first schedule: slot 0 becomes `Running` and
    /// its user-time window opens.  The caller then performs the first raw
    /// switch, out of a throwaway `TaskContext::zero_init` context into slot
    /// 0's context — that switch never returns here, so calling this twice
    /// is a boot-protocol error and is excluded by the precondition.
    pub fn run_first_task(&mut self, now_ms: usize)
        requires
            old(self).wf(),
            old(self)@.current == 0,
            old(self)@.status_of(0) == TaskStatus::Ready,
            old(self)@.metric_of(0).tmp_time_marker == 0,
            now_ms > 0,
        ensures
            final(self)@ == first_task_model(old(self)@, now_ms),
            final(self).wf(),
    {
        let mut t0 = self.inner.tasks[0];
        t0.task_status = TaskStatus::Running;
        self.inner.tasks[0] = t0;
        let mut t0m = self.inner.tasks[0];
        t0m.task_metric.mark_user_start(now_ms);
        self.inner.tasks[0] = t0m;
        proof {
            assert(self@ =~= first_task_model(old(self)@, now_ms));
        }
    }

    /// The current `Running` task is preempted or yields: status back to
    /// `Ready`.  On a task that is already `Ready` this changes nothing —
    /// the transition is idempotent on status.
    pub fn mark_current_suspended(&mut self)
        requires
            old(self).wf(),
        ensures
            final(self)@ == suspended_model(old(self)@),
            final(self).wf(),
            old(self)@.status_of(old(self)@.current) == TaskStatus::Ready ==> final(self)@ == old(
                self,
            )@,
    {
        let current = self.inner.current_task;
        let mut t = self.inner.tasks[current];
        t.task_status = TaskStatus::Ready;
        self.inner.tasks[current] = t;
        proof {
            assert(self@ =~= suspended_model(old(self)@));
            if old(self)@.status_of(old(self)@.current) == TaskStatus::Ready {
                assert(old(self)@.tasks[old(self)@.current] == t);
                assert(self@.tasks =~= old(self)@.tasks);
                assert(self@ =~= old(self)@);
            }
        }
    }

    /// The current task terminates: status becomes `Exited`, terminally.
    /// The accumulated user and kernel times of the slot are then available
    /// to the caller for the exit report.
    pub fn mark_current_exited(&mut self)
        requires
            old(self).wf(),
        ensures
            final(self)@ == exited_model(old(self)@),
            final(self).wf(),
    {
        let current = self.inner.current_task;
        let mut t = self.inner.tasks[current];
        t.task_status = TaskStatus::Exited;
        self.inner.tasks[current] = t;
        proof {
            assert(self@ =~= exited_model(old(self)@));
        }
    }

    /// Strict round-robin scan: the first `Ready` slot cyclically after
    /// `current_task`, the current slot itself considered last; `None` when
    /// no slot is `Ready`.
    pub fn find_next_task(&self) -> (r: Option<usize>)
        requires
            self.wf(),
        ensures
            match r {
                Some(id) => id < self.num_app && rr_pick(
                    self@.statuses(),
                    self@.current,
                    self@.num_app,
                ) == Some(id as int),
                None => rr_pick(self@.statuses(), self@.current, self@.num_app) is None,
            },
    {
        let n = self.num_app;
        let current = self.inner.current_task;
        let mut k: usize = 0;
        while k < n
            invariant
                self.wf(),
                n == self.num_app,
                current == self.inner.current_task,
                k <= n,
                rr_scan(self@.statuses(), n as int, current + 1, 0) == rr_scan(
                    self@.statuses(),
                    n as int,
                    current + 1,
                    k as int,
                ),
            decreases n - k,
        {
            let id = (current + 1 + k) % n;
            if self.inner.tasks[id].task_status == TaskStatus::Ready {
                return Some(id);
            }
            k += 1;
        }
        None
    }

    /// Reschedule: pick the next `Ready` slot round-robin; transition it to
    /// `Running`, move the cursor, close the outgoing slot's kernel-time
    /// window and open the incoming slot's user-time window.  The caller
    /// performs the returned switch (a genuine control transfer: it "returns"
    /// only when a future reschedule lands back on the outgoing slot), or
    /// halts the machine on `AllCompleted`.
    pub fn run_next_task(&mut self, now_ms: usize) -> (r: ScheduleOutcome)
        requires
            can_run_next(old(self)@, now_ms),
        ensures
            final(self)@ == run_next_model(old(self)@, now_ms).0,
            r == run_next_model(old(self)@, now_ms).1,
            final(self).wf(),
            final(self)@.only_current_open(),
            final(self)@.num_app == old(self)@.num_app,
    {
        match self.find_next_task() {
            Some(next) => {
                let current = self.inner.current_task;
                let mut tn = self.inner.tasks[next];
                tn.task_status = TaskStatus::Running;
                self.inner.tasks[next] = tn;
                self.inner.current_task = next;
                let mut tc = self.inner.tasks[current];
                tc.task_metric.mark_kernel_end(now_ms);
                self.inner.tasks[current] = tc;
                let mut tn2 = self.inner.tasks[next];
                proof {
                    if next != current {
                        assert(old(self)@.tasks[next as int].task_metric.tmp_time_marker == 0);
                    }
                }
                tn2.task_metric.mark_user_start(now_ms);
                self.inner.tasks[next] = tn2;
                proof {
                    assert(self@ =~= run_next_model(old(self)@, now_ms).0);
                    assert forall|i: int|
                        0 <= i < self@.tasks.len() && i != self@.current implies (
                    #[trigger] self@.tasks[i]).task_metric.tmp_time_marker == 0 by {
                        assert(self@.tasks[i].task_metric.tmp_time_marker == if i == current {
                            old(self)@.tasks[i].task_metric.kernel_ended(now_ms).tmp_time_marker
                        } else {
                            old(self)@.tasks[i].task_metric.tmp_time_marker
                        });
                    }
                }
                ScheduleOutcome::Switched { from: current, to: next }
            },
            None => ScheduleOutcome::AllCompleted,
        }
    }

    /// Open the current task's user-time window.
    pub fn mark_user_time_start(&mut self, now_ms: usize)
        requires
            old(self).wf(),
            old(self)@.current_metric().tmp_time_marker == 0,
            now_ms > 0,
        ensures
            final(self)@ == (ManagerModel {
                tasks: set_metric(
                    old(self)@.tasks,
                    old(self)@.current,
                    old(self)@.current_metric().started(now_ms),
                ),
                ..old(self)@
            }),
            final(self).wf(),
    {
        let current = self.inner.current_task;
        let mut t = self.inner.tasks[current];
        t.task_metric.mark_user_start(now_ms);
        self.inner.tasks[current] = t;
        proof {
            assert(self@.tasks =~= set_metric(
                old(self)@.tasks,
                old(self)@.current,
                old(self)@.current_metric().started(now_ms),
            ));
        }
    }

    /// Close the current task's user-time window.
    pub fn mark_user_time_end(&mut self, now_ms: usize)
        requires
            old(self).wf(),
            old(self)@.current_metric().can_end_user(now_ms),
        ensures
            final(self)@ == (ManagerModel {
                tasks: set_metric(
                    old(self)@.tasks,
                    old(self)@.current,
                    old(self)@.current_metric().user_ended(now_ms),
                ),
                ..old(self)@
            }),
            final(self).wf(),
    {
        let current = self.inner.current_task;
        let mut t = self.inner.tasks[current];
        t.task_metric.mark_user_end(now_ms);
        self.inner.tasks[current] = t;
        proof {
            assert(self@.tasks =~= set_metric(
                old(self)@.tasks,
                old(self)@.current,
                old(self)@.current_metric().user_ended(now_ms),
            ));
        }
    }

    /// Open the current task's kernel-time window.
    pub fn mark_kernel_time_start(&mut self, now_ms: usize)
        requires
            old(self).wf(),
            old(self)@.current_metric().tmp_time_marker == 0,
            now_ms > 0,
        ensures
            final(self)@ == (ManagerModel {
                tasks: set_metric(
                    old(self)@.tasks,
                    old(self)@.current,
                    old(self)@.current_metric().started(now_ms),
                ),
                ..old(self)@
            }),
            final(self).wf(),
    {
        let current = self.inner.current_task;
        let mut t = self.inner.tasks[current];
        t.task_metric.mark_kernel_start(now_ms);
        self.inner.tasks[current] = t;
        proof {
            assert(self@.tasks =~= set_metric(
                old(self)@.tasks,
                old(self)@.current,
                old(self)@.current_metric().started(now_ms),
            ));
        }
    }

    /// Close the current task's kernel-time window.
    pub fn mark_kernel_time_end(&mut self, now_ms: usize)
        requires
            old(self).wf(),
            old(self)@.current_metric().can_end_kernel(now_ms),
        ensures
            final(self)@ == (ManagerModel {
                tasks: set_metric(
                    old(self)@.tasks,
                    old(self)@.current,
                    old(self)@.current_metric().kernel_ended(now_ms),
                ),
                ..old(self)@
            }),
            final(self).wf(),
    {
        let current = self.inner.current_task;
        let mut t = self.inner.tasks[current];
        t.task_metric.mark_kernel_end(now_ms);
        self.inner.tasks[current] = t;
        proof {
            assert(self@.tasks =~= set_metric(
                old(self)@.tasks,
                old(self)@.current,
                old(self)@.current_metric().kernel_ended(now_ms),
            ));
        }
    }
}

/// Module-level entry: bookkeeping of the first schedule (see the method).
pub fn run_first_task(tm: &mut TaskManager, now_ms: usize)
    requires
        old(tm).wf(),
        old(tm)@.current == 0,
        old(tm)@.status_of(0) == TaskStatus::Ready,
        old(tm)@.metric_of(0).tmp_time_marker == 0,
        now_ms > 0,
    ensures
        final(tm)@ == first_task_model(old(tm)@, now_ms),
        final(tm).wf(),
{
    tm.run_first_task(now_ms);
}

/// Suspend the current task (`Running -> Ready`), then reschedule.
pub fn suspend_current_and_run_next(tm: &mut TaskManager, now_ms: usize) -> (r: ScheduleOutcome)
    requires
        can_run_next(old(tm)@, now_ms),
    ensures
        final(tm)@ == run_next_model(suspended_model(old(tm)@), now_ms).0,
        r == run_next_model(suspended_model(old(tm)@), now_ms).1,
        final(tm).wf(),
        final(tm)@.only_current_open(),
{
    proof {
        lemma_set_status_preserves_can_run_next(old(tm)@, TaskStatus::Ready, now_ms);
    }
    tm.mark_current_suspended();
    tm.run_next_task(now_ms)
}

/// Terminate the current task (`Running -> Exited`), then reschedule.  The
/// exit report — the slot's accumulated user and kernel time — is read by
/// the caller from the slot before the switch is performed.
pub fn exit_current_and_run_next(tm: &mut TaskManager, now_ms: usize) -> (r: ScheduleOutcome)
    requires
        can_run_next(old(tm)@, now_ms),
    ensures
        final(tm)@ == run_next_model(exited_model(old(tm)@), now_ms).0,
        r == run_next_model(exited_model(old(tm)@), now_ms).1,
        final(tm).wf(),
        final(tm)@.only_current_open(),
{
    proof {
        lemma_set_status_preserves_can_run_next(old(tm)@, TaskStatus::Exited, now_ms);
    }
    tm.mark_current_exited();
    tm.run_next_task(now_ms)
}

/// Open the current task's user-time window (module-level entry).
pub fn mark_user_time_start(tm: &mut TaskManager, now_ms: usize)
    requires
        old(tm).wf(),
        old(tm)@.current_metric().tmp_time_marker == 0,
        now_ms > 0,
    ensures
        final(tm)@ == (ManagerModel {
            tasks: set_metric(
                old(tm)@.tasks,
                old(tm)@.current,
                old(tm)@.current_metric().started(now_ms),
            ),
            ..old(tm)@
        }),
        final(tm).wf(),
{
    tm.mark_user_time_start(now_ms);
}

/// Close the current task's user-time window (module-level entry).
pub fn mark_user_time_end(tm: &mut TaskManager, now_ms: usize)
    requires
        old(tm).wf(),
        old(tm)@.current_metric().can_end_user(now_ms),
    ensures
        final(tm)@ == (ManagerModel {
            tasks: set_metric(
                old(tm)@.tasks,
                old(tm)@.current,
                old(tm)@.current_metric().user_ended(now_ms),
            ),
            ..old(tm)@
        }),
        final(tm).wf(),
{
    tm.mark_user_time_end(now_ms);
}

/// Open the current task's kernel-time window (module-level entry).
pub fn mark_kernel_time_start(tm: &mut TaskManager, now_ms: usize)
    requires
        old(tm).wf(),
        old(tm)@.current_metric().tmp_time_marker == 0,
        now_ms > 0,
    ensures
        final(tm)@ == (ManagerModel {
            tasks: set_metric(
                old(tm)@.tasks,
                old(tm)@.current,
                old(tm)@.current_metric().started(now_ms),
            ),
            ..old(tm)@
        }),
        final(tm).wf(),
{
    tm.mark_kernel_time_start(now_ms);
}

/// Close the current task's kernel-time window (module-level entry).
pub fn mark_kernel_time_end(tm: &mut TaskManager, now_ms: usize)
    requires
        old(tm).wf(),
        old(tm)@.current_metric().can_end_kernel(now_ms),
    ensures
        final(tm)@ == (ManagerModel {
            tasks: set_metric(
                old(tm)@.tasks,
                old(tm)@.current,
                old(tm)@.current_metric().kernel_ended(now_ms),
            ),
            ..old(tm)@
        }),
        final(tm).wf(),
{
    tm.mark_kernel_time_end(now_ms);
}

/// Boot state: the cursor on slot 0 and every slot `Ready`.
pub open spec fn boot_model(m: ManagerModel, n: int) -> bool {
    &&& m.wf()
    &&& m.num_app == n
    &&& m.current == 0
    &&& forall|i: int| 0 <= i < m.tasks.len() ==> m.status_of(i) == TaskStatus::Ready
}

/// State after the first schedule and `k` exits (no yields): slots below
/// `k` are `Exited`, slot `k` is current and `Running`, everything above is
/// still `Ready`.
pub open spec fn chain_model(m: ManagerModel, n: int, k: int) -> bool {
    &&& m.wf()
    &&& m.num_app == n
    &&& m.current == k
    &&& 0 <= k < n
    &&& forall|i: int| 0 <= i < k ==> m.status_of(i) == TaskStatus::Exited
    &&& m.status_of(k) == TaskStatus::Running
    &&& forall|i: int| k < i < m.tasks.len() ==> m.status_of(i) == TaskStatus::Ready
}

/// One exit event: the current task terminates and the next is scheduled.
pub open spec fn exit_step_model(m: ManagerModel, now_ms: usize) -> (
    ManagerModel,
    ScheduleOutcome,
) {
    run_next_model(exited_model(m), now_ms)
}

/// State after the first schedule and `k` exit events, all stamped `now_ms`
/// (the clock values play no part in which slots are visited).
pub open spec fn after_exits(m: ManagerModel, k: nat, now_ms: usize) -> ManagerModel
    decreases k,
{
    if k == 0 {
        m
    } else {
        exit_step_model(after_exits(m, (k - 1) as nat, now_ms), now_ms).0
    }
}

/// With no `Ready` slot among 0..n, the cyclic scan finds nothing.
proof fn lemma_rr_scan_none(s: Seq<TaskStatus>, n: int, start: int, k: int)
    requires
        forall|i: int| 0 <= i < n ==> s[i] != TaskStatus::Ready,
    ensures
        rr_scan(s, n, start, k) is None,
    decreases n - k,
{
    if !(k < 0 || k >= n || n <= 0) {
        assert(0 <= (start + k) % n < n);
        lemma_rr_scan_none(s, n, start, k + 1);
    }
}

/// The first schedule turns the boot state into the chain state at slot 0.
pub proof fn lemma_first_task_starts_chain(m: ManagerModel, n: int, now_ms: usize)
    requires
        boot_model(m, n),
    ensures
        chain_model(first_task_model(m, now_ms), n, 0),
{
    let r = first_task_model(m, now_ms);
    assert(r.status_of(0) == TaskStatus::Running);
    assert forall|i: int| 0 < i < r.tasks.len() implies r.status_of(i) == TaskStatus::Ready by {
        assert(r.tasks[i] == m.tasks[i]);
        assert(m.status_of(i) == TaskStatus::Ready);
    }
}

/// An exit with further tasks pending moves the chain one slot up: the
/// reschedule switches from slot `k` precisely to slot `k + 1`.
pub proof fn lemma_exit_step_advances(m: ManagerModel, n: int, k: int, now_ms: usize)
    requires
        chain_model(m, n, k),
        k + 1 < n,
    ensures
        chain_model(exit_step_model(m, now_ms).0, n, k + 1),
        exit_step_model(m, now_ms).1 == (ScheduleOutcome::Switched {
            from: k as usize,
            to: (k + 1) as usize,
        }),
{
    let me = exited_model(m);
    let s = me.statuses();
    assert((k + 1 + 0) % n == k + 1) by (nonlinear_arith)
        requires 0 <= k + 1 < n,
    ;
    assert(s.len() == me.tasks.len());
    assert(me.tasks[k + 1] == m.tasks[k + 1]);
    assert(m.status_of(k + 1) == TaskStatus::Ready);
    assert(s[k + 1] == me.tasks[k + 1].task_status);
    assert(s[k + 1] == TaskStatus::Ready);
    assert(rr_scan(s, n, k + 1, 0) == Some(k + 1));
    let stepped = exit_step_model(m, now_ms).0;
    assert(stepped.current == k + 1);
    assert forall|i: int| 0 <= i < k + 1 implies stepped.status_of(i) == TaskStatus::Exited by {
        assert(stepped.tasks[i].task_status == me.tasks[i].task_status);
        if i < k {
            assert(me.tasks[i] == m.tasks[i]);
            assert(m.status_of(i) == TaskStatus::Exited);
        } else {
            assert(me.tasks[k].task_status == TaskStatus::Exited);
        }
    }
    assert(stepped.status_of(k + 1) == TaskStatus::Running);
    assert forall|i: int| k + 1 < i < stepped.tasks.len() implies stepped.status_of(i)
        == TaskStatus::Ready by {
        assert(stepped.tasks[i].task_status == me.tasks[i].task_status);
        assert(me.tasks[i] == m.tasks[i]);
        assert(m.status_of(i) == TaskStatus::Ready);
    }
}

/// The last exit finds no `Ready` slot: the outcome is `AllCompleted`, with
/// every loaded slot `Exited` — the machine is to halt cleanly.
pub proof fn lemma_exit_step_completes(m: ManagerModel, n: int, now_ms: usize)
    requires
        chain_model(m, n, n - 1),
    ensures
        exit_step_model(m, now_ms).1 == ScheduleOutcome::AllCompleted,
        forall|i: int|
            0 <= i < n ==> exit_step_model(m, now_ms).0.status_of(i) == TaskStatus::Exited,
{
    let me = exited_model(m);
    let s = me.statuses();
    assert(s.len() == me.tasks.len());
    assert forall|i: int| 0 <= i < n implies s[i] != TaskStatus::Ready by {
        assert(s[i] == me.tasks[i].task_status);
        if i < n - 1 {
            assert(me.tasks[i] == m.tasks[i]);
            assert(m.status_of(i) == TaskStatus::Exited);
        } else {
            assert(me.tasks[i].task_status == TaskStatus::Exited);
        }
    }
    lemma_rr_scan_none(s, n, me.current + 1, 0);
    assert(rr_pick(me.statuses(), me.current, me.num_app) is None);
    let stepped = exit_step_model(m, now_ms).0;
    assert(stepped == me);
    assert forall|i: int| 0 <= i < n implies stepped.status_of(i) == TaskStatus::Exited by {
        assert(s[i] == me.tasks[i].task_status);
        assert(s[i] != TaskStatus::Ready);
        if i < n - 1 {
            assert(me.tasks[i] == m.tasks[i]);
            assert(m.status_of(i) == TaskStatus::Exited);
        } else {
            assert(me.tasks[i].task_status == TaskStatus::Exited);
        }
    }
}

/// Round-robin completion law: from boot, `run_first_task` enters slot 0,
/// the `k`-th exit switches from slot `k - 1` exactly to slot `k` — the
/// slots are visited once each, in increasing order — and the `n`-th exit
/// finds every slot `Exited` and halts the machine with all applications
/// completed.
pub proof fn lemma_round_robin_completion(
    m0: ManagerModel,
    n: int,
    k: nat,
    now_first: usize,
    now_ms: usize,
)
    requires
        boot_model(m0, n),
        1 <= k <= n,
    ensures
        ({
            let m1 = first_task_model(m0, now_first);
            &&& (k < n ==> chain_model(after_exits(m1, k, now_ms), n, k as int))
            &&& (k < n ==> exit_step_model(after_exits(m1, (k - 1) as nat, now_ms), now_ms).1 == (
            ScheduleOutcome::Switched { from: (k - 1) as usize, to: k as usize }))
            &&& (k == n ==> exit_step_model(after_exits(m1, (k - 1) as nat, now_ms), now_ms).1
                == ScheduleOutcome::AllCompleted)
            &&& (k == n ==> forall|i: int|
                0 <= i < n ==> after_exits(m1, k, now_ms).status_of(i) == TaskStatus::Exited)
        }),
    decreases k,
{
    let m1 = first_task_model(m0, now_first);
    lemma_first_task_starts_chain(m0, n, now_first);
    let mk_1 = after_exits(m1, (k - 1) as nat, now_ms);
    if k == 1 {
        assert(mk_1 == m1);
    } else {
        lemma_round_robin_completion(m0, n, (k - 1) as nat, now_first, now_ms);
    }
    assert(chain_model(mk_1, n, k - 1));
    if k < n {
        lemma_exit_step_advances(mk_1, n, k - 1, now_ms);
        assert(after_exits(m1, k, now_ms) == exit_step_model(mk_1, now_ms).0);
    } else {
        lemma_exit_step_completes(mk_1, n, now_ms);
        assert(after_exits(m1, k, now_ms) == exit_step_model(mk_1, now_ms).0);
    }
}

/// Lifecycle law: an exit event makes only legal status moves — the
/// terminating task goes `Running -> Exited`, the slot scheduled in goes
/// `Ready -> Running`, and every other slot keeps its status.
pub proof fn lemma_exit_step_transitions_legal(m: ManagerModel, now_ms: usize)
    requires
        m.wf(),
        m.status_of(m.current) == TaskStatus::Running,
    ensures
        forall|i: int|
            0 <= i < m.tasks.len() && (#[trigger] exit_step_model(m, now_ms).0.status_of(i))
                != m.status_of(i) ==> legal_transition(
                m.status_of(i),
                exit_step_model(m, now_ms).0.status_of(i),
            ),
{
    let me = exited_model(m);
    lemma_rr_scan_picks_ready(me.statuses(), me.num_app, me.current + 1, 0);
    let stepped = exit_step_model(m, now_ms).0;
    assert forall|i: int|
        0 <= i < m.tasks.len() && (#[trigger] stepped.status_of(i)) != m.status_of(i) implies
        legal_transition(m.status_of(i), stepped.status_of(i)) by {
        match rr_pick(me.statuses(), me.current, me.num_app) {
            Some(next) => {
                assert(me.statuses()[next] == TaskStatus::Ready);
                assert(me.statuses()[next] == me.tasks[next].task_status);
                assert(me.tasks[me.current].task_status == TaskStatus::Exited);
                assert(next != me.current);
                assert(me.tasks[next] == m.tasks[next]);
                if i == m.current {
                    assert(stepped.status_of(i) == TaskStatus::Exited);
                } else if i == next {
                    assert(m.status_of(i) == TaskStatus::Ready);
                    assert(stepped.status_of(i) == TaskStatus::Running);
                } else {
                    assert(stepped.tasks[i] == m.tasks[i]);
                }
            },
            None => {
                assert(stepped == me);
                if i == m.current {
                    assert(stepped.status_of(i) == TaskStatus::Exited);
                } else {
                    assert(stepped.tasks[i] == m.tasks[i]);
                }
            },
        }
    }
}

} // verus!
