//! Trap dispatch: from a decoded trap cause and the saved register snapshot
//! to an updated snapshot and a kernel decision.
//!
//! The hardware side — reading the cause, status and fault-value registers,
//! rearming the timer, the trap entry/exit assembly — stays with the caller.
//! It hands in the privilege level the trap was raised from, the decoded
//! cause, and two clock readings: one taken on entry, one when the handler
//! leaves (or switches away).

use vstd::prelude::*;

use crate::manager::{
    exit_current_and_run_next, exited_model, ManagerModel, rr_pick, run_next_model,
    ScheduleOutcome, set_metric, suspend_current_and_run_next, suspended_model, TaskManager,
};
use crate::syscall::{
    syscall, syscall_model, MemoryLayout, SyscallDecision, SYSCALL_WRITE,
};

verus! {

/// Privilege level a trap was raised from (the status register's previous
/// privilege bit).
#[derive(Clone, Copy, Debug, PartialEq, Eq, Structural)]
pub enum Privilege {
    User,
    Supervisor,
}

/// Decoded hardware trap cause.  Every cause the kernel does not handle is
/// `Unknown` — and deliberately fatal.
#[derive(Clone, Copy, Debug, PartialEq, Eq, Structural)]
pub enum TrapCause {
    /// Synchronous environment call (syscall) from user mode.
    UserEnvCall,
    StoreFault,
    StorePageFault,
    IllegalInstruction,
    /// Timer interrupt.
    SupervisorTimer,
    Unknown,
}

/// Saved user register file at trap entry: the 32 integer registers, the
/// status register, and the faulting/next program counter.
#[derive(Clone, Copy, Debug)]
pub struct TrapContext {
    pub x: [usize; 32],
    pub sstatus: usize,
    pub sepc: usize,
}

/// What the kernel does after handling a trap.  The caller carries it out:
/// return to user mode, resume interrupted kernel code (after rearming the
/// timer), perform a context switch or power off (`Scheduled`), or halt on
/// an unrecoverable condition.
#[derive(Clone, Copy, Debug, PartialEq, Eq, Structural)]
pub enum TrapOutcome {
    ContinueUser,
    ContinueKernel,
    Scheduled(ScheduleOutcome),
    FatalHalt,
}

/// Diagnostic flag recording that a timer interrupt was taken in kernel
/// mode, for re-entrancy checks by kernel code.
#[derive(Clone, Copy, Debug, PartialEq, Eq, Structural)]
pub struct KernelInterruptFlag {
    pub triggered: bool,
}

impl KernelInterruptFlag {
    pub fn new() -> (r: KernelInterruptFlag)
        ensures
            !r.triggered,
    {
        KernelInterruptFlag { triggered: false }
    }
}

/// Has a kernel-mode timer interrupt been observed?
pub fn check_kernel_interrupt(flag: &KernelInterruptFlag) -> (r: bool)
    ensures
        r == flag.triggered,
{
    flag.triggered
}

/// Record that a kernel-mode timer interrupt occurred.
pub fn mark_kernel_interrupt(flag: &mut KernelInterruptFlag)
    ensures
        final(flag).triggered,
{
    flag.triggered = true;
}

/// The current task's metric after trap entry: its user window closes and
/// its kernel window opens, both stamped `entry_ms`.
pub open spec fn trap_entry_model(m: ManagerModel, entry_ms: usize) -> ManagerModel {
    let m1 = ManagerModel {
        tasks: set_metric(m.tasks, m.current, m.current_metric().user_ended(entry_ms)),
        ..m
    };
    ManagerModel {
        tasks: set_metric(m1.tasks, m1.current, m1.current_metric().started(entry_ms)),
        ..m1
    }
}

/// The current task's metric on the way back to user mode: its kernel
/// window closes and its user window reopens, both stamped `exit_ms`.
pub open spec fn trap_exit_model(m: ManagerModel, exit_ms: usize) -> ManagerModel {
    let m1 = ManagerModel {
        tasks: set_metric(m.tasks, m.current, m.current_metric().kernel_ended(exit_ms)),
        ..m
    };
    ManagerModel {
        tasks: set_metric(m1.tasks, m1.current, m1.current_metric().started(exit_ms)),
        ..m1
    }
}

/// The complete user-trap transition: manager state and outcome.
pub open spec fn user_trap_model(
    m: ManagerModel,
    cx: TrapContext,
    cause: TrapCause,
    mem: MemoryLayout,
    entry_ms: usize,
    exit_ms: usize,
) -> (ManagerModel, TrapOutcome) {
    let m1 = trap_entry_model(m, entry_ms);
    match cause {
        TrapCause::UserEnvCall => {
            match syscall_model(cx.x@[17], cx.x@[10], cx.x@[11], cx.x@[12], mem) {
                SyscallDecision::Return(_) => (trap_exit_model(m1, exit_ms), TrapOutcome::ContinueUser),
                SyscallDecision::Exit(_) => {
                    let (m2, o) = run_next_model(exited_model(m1), exit_ms);
                    (m2, TrapOutcome::Scheduled(o))
                },
                SyscallDecision::Fatal => (m1, TrapOutcome::FatalHalt),
            }
        },
        TrapCause::StoreFault | TrapCause::StorePageFault | TrapCause::IllegalInstruction => {
            let (m2, o) = run_next_model(exited_model(m1), exit_ms);
            (m2, TrapOutcome::Scheduled(o))
        },
        TrapCause::SupervisorTimer => {
            let (m2, o) = run_next_model(suspended_model(m1), exit_ms);
            (m2, TrapOutcome::Scheduled(o))
        },
        TrapCause::Unknown => (m1, TrapOutcome::FatalHalt),
    }
}

/// Precondition of a user trap: sound scheduler state, a monotone positive
/// clock with room in the accumulators, and — for a syscall — a program
/// counter that can be advanced and argument registers a `write` can be
/// checked against.
pub open spec fn can_handle_user_trap(
    m: ManagerModel,
    cx: TrapContext,
    cause: TrapCause,
    entry_ms: usize,
    exit_ms: usize,
) -> bool {
    &&& m.wf()
    &&& m.only_current_open()
    &&& 0 < entry_ms <= exit_ms
    &&& m.current_metric().tmp_time_marker <= entry_ms
    &&& m.current_metric().user_cost_ms + entry_ms <= usize::MAX
    &&& m.current_metric().kernel_cost_ms + (exit_ms - entry_ms) <= usize::MAX
    &&& (cause == TrapCause::UserEnvCall ==> cx.sepc + 4 <= usize::MAX)
    &&& (cause == TrapCause::UserEnvCall && cx.x@[17] == SYSCALL_WRITE ==> cx.x@[11] + cx.x@[12]
        <= usize::MAX && cx.x@[12] <= isize::MAX)
}

/// After the current task is marked `Exited`, no reschedule can pick it
/// again — the pick names a `Ready` slot — so its status survives the
/// reschedule's updates.
proof fn lemma_fault_leaves_task_exited(m: ManagerModel, entry_ms: usize)
    requires
        m.wf(),
    ensures
        ({
            let me = exited_model(trap_entry_model(m, entry_ms));
            forall|now: usize|
                (#[trigger] run_next_model(me, now)).0.status_of(m.current)
                    == crate::task::TaskStatus::Exited
        }),
{
    let me = exited_model(trap_entry_model(m, entry_ms));
    assert(me.statuses()[me.current] == crate::task::TaskStatus::Exited);
    assert forall|now: usize|
        (#[trigger] run_next_model(me, now)).0.status_of(m.current)
            == crate::task::TaskStatus::Exited by {
        crate::manager::lemma_rr_scan_picks_ready(me.statuses(), me.num_app, me.current + 1, 0);
        match rr_pick(me.statuses(), me.current, me.num_app) {
            Some(next) => {
                assert(me.statuses()[next] == crate::task::TaskStatus::Ready);
                assert(next != me.current);
            },
            None => {},
        }
    }
}

/// Handle a trap raised from user mode.
///
/// On entry the task's user window closes and its kernel window opens.  A
/// syscall advances the saved program counter past the call instruction and,
/// unless it terminates the task or halts the kernel, writes its result into
/// the first argument register; store and store-page faults and illegal
/// instructions terminate only the offending task (the kernel never crashes
/// on user-caused faults); the timer preempts; anything else halts.  On the
/// non-terminating paths the kernel window closes and the user window
/// reopens before the return to user mode; on `Scheduled` outcomes the
/// window hand-off happens inside the reschedule.  The caller rearms the
/// timer when the cause was `SupervisorTimer`.
pub fn user_trap_handler(
    tm: &mut TaskManager,
    cx: &mut TrapContext,
    cause: TrapCause,
    mem: &MemoryLayout,
    entry_ms: usize,
    exit_ms: usize,
) -> (r: TrapOutcome)
    requires
        can_handle_user_trap(old(tm)@, *old(cx), cause, entry_ms, exit_ms),
    ensures
        final(tm)@ == user_trap_model(old(tm)@, *old(cx), cause, *mem, entry_ms, exit_ms).0,
        r == user_trap_model(old(tm)@, *old(cx), cause, *mem, entry_ms, exit_ms).1,
        cause != TrapCause::UserEnvCall ==> *final(cx) == *old(cx),
        cause == TrapCause::UserEnvCall ==> final(cx).sepc == old(cx).sepc + 4,
        cause == TrapCause::UserEnvCall ==> final(cx).sstatus == old(cx).sstatus,
        cause == TrapCause::UserEnvCall ==> (match syscall_model(
            old(cx).x@[17],
            old(cx).x@[10],
            old(cx).x@[11],
            old(cx).x@[12],
            *mem,
        ) {
            SyscallDecision::Return(v) => final(cx).x@ == old(cx).x@.update(10, #[verifier::truncate] (v as usize)),
            _ => final(cx).x@ == old(cx).x@,
        }),
        // fault isolation: a faulting or illegal-instruction task is Exited
        // and scheduling proceeds — the kernel itself keeps running
        (cause == TrapCause::StoreFault || cause == TrapCause::StorePageFault || cause
            == TrapCause::IllegalInstruction) ==> final(tm)@.status_of(old(tm)@.current)
            == crate::task::TaskStatus::Exited && (r matches TrapOutcome::Scheduled(_)),
    {
    tm.mark_user_time_end(entry_ms);
    tm.mark_kernel_time_start(entry_ms);
    match cause {
        TrapCause::UserEnvCall => {
            cx.sepc = cx.sepc + 4;
            let id = cx.x[17];
            let args: [usize; 3] = [cx.x[10], cx.x[11], cx.x[12]];
            let d = syscall(id, args, mem, tm.num_app);
            match d {
                SyscallDecision::Return(v) => {
                    cx.x[10] = #[verifier::truncate] (v as usize);
                    tm.mark_kernel_time_end(exit_ms);
                    tm.mark_user_time_start(exit_ms);
                    TrapOutcome::ContinueUser
                },
                SyscallDecision::Exit(_code) => {
                    let o = exit_current_and_run_next(tm, exit_ms);
                    TrapOutcome::Scheduled(o)
                },
                SyscallDecision::Fatal => {
                    // unsupported syscall id: unrecoverable, the kernel halts
                    TrapOutcome::FatalHalt
                },
            }
        },
        TrapCause::StoreFault | TrapCause::StorePageFault => {
            // the caller reports the faulting address and instruction
            let o = exit_current_and_run_next(tm, exit_ms);
            proof {
                lemma_fault_leaves_task_exited(old(tm)@, entry_ms);
            }
            TrapOutcome::Scheduled(o)
        },
        TrapCause::IllegalInstruction => {
            let o = exit_current_and_run_next(tm, exit_ms);
            proof {
                lemma_fault_leaves_task_exited(old(tm)@, entry_ms);
            }
            TrapOutcome::Scheduled(o)
        },
        TrapCause::SupervisorTimer => {
            let o = suspend_current_and_run_next(tm, exit_ms);
            TrapOutcome::Scheduled(o)
        },
        TrapCause::Unknown => {
            // unsupported hardware condition: no safe recovery
            TrapOutcome::FatalHalt
        },
    }
}

/// Outcome of a trap raised from supervisor (kernel) mode: the timer is
/// handled and kernel execution resumes; every other cause — a kernel-mode
/// memory fault above all — is unrecoverable.
pub open spec fn kernel_trap_model(cause: TrapCause) -> TrapOutcome {
    if cause == TrapCause::SupervisorTimer {
        TrapOutcome::ContinueKernel
    } else {
        TrapOutcome::FatalHalt
    }
}

/// Handle a trap raised from kernel mode: a timer interrupt sets the
/// diagnostic flag and resumes (the caller rearms the timer); a store or
/// store-page fault in kernel mode, and any other cause, is an
/// unrecoverable halt.
pub fn kernel_trap_handler(flag: &mut KernelInterruptFlag, cause: TrapCause) -> (r: TrapOutcome)
    ensures
        r == kernel_trap_model(cause),
        cause == TrapCause::SupervisorTimer ==> final(flag).triggered,
        cause != TrapCause::SupervisorTimer ==> *final(flag) == *old(flag),
{
    match cause {
        TrapCause::SupervisorTimer => {
            mark_kernel_interrupt(flag);
            TrapOutcome::ContinueKernel
        },
        TrapCause::StoreFault | TrapCause::StorePageFault => {
            // the caller reports the faulting address and instruction
            TrapOutcome::FatalHalt
        },
        _ => TrapOutcome::FatalHalt,
    }
}

/// Single trap entry: route by the privilege level the trap was raised
/// from.  User traps are subject to the kill-the-offending-task policy;
/// kernel traps are not — the kernel stays interruptible by the timer while
/// treating its own faults as fatal.
pub fn trap_handler(
    tm: &mut TaskManager,
    cx: &mut TrapContext,
    flag: &mut KernelInterruptFlag,
    privilege: Privilege,
    cause: TrapCause,
    mem: &MemoryLayout,
    entry_ms: usize,
    exit_ms: usize,
) -> (r: TrapOutcome)
    requires
        privilege == Privilege::User ==> can_handle_user_trap(
            old(tm)@,
            *old(cx),
            cause,
            entry_ms,
            exit_ms,
        ),
    ensures
        privilege == Privilege::User ==> final(tm)@ == user_trap_model(
            old(tm)@,
            *old(cx),
            cause,
            *mem,
            entry_ms,
            exit_ms,
        ).0 && r == user_trap_model(old(tm)@, *old(cx), cause, *mem, entry_ms, exit_ms).1,
        privilege == Privilege::User ==> *final(flag) == *old(flag),
        privilege == Privilege::Supervisor ==> r == kernel_trap_model(cause),
        privilege == Privilege::Supervisor ==> *final(tm) == *old(tm) && *final(cx) == *old(cx),
        privilege == Privilege::Supervisor && cause == TrapCause::SupervisorTimer ==> final(flag).triggered,
{
    match privilege {
        Privilege::Supervisor => kernel_trap_handler(flag, cause),
        Privilege::User => user_trap_handler(tm, cx, cause, mem, entry_ms, exit_ms),
    }
}

/// Time-accounting law at the trap level: a trap that returns to user mode
/// closes exactly the windows it opened.  Afterwards the task's user and
/// kernel accumulators together have grown by precisely the time since its
/// user window last opened, and the user window stands reopened at
/// `exit_ms` — ready for the next round.  Together with the occupation law
/// on `TaskMetric` this is why a task that reaches `Exited` carries its
/// whole wall time in `user_cost_ms + kernel_cost_ms` with no window open.
pub proof fn lemma_trap_roundtrip_accounting(m: ManagerModel, entry_ms: usize, exit_ms: usize)
    requires
        m.wf(),
        m.current_metric().tmp_time_marker > 0,
        m.current_metric().tmp_time_marker <= entry_ms <= exit_ms,
        m.current_metric().user_cost_ms + (entry_ms - m.current_metric().tmp_time_marker)
            <= usize::MAX,
        m.current_metric().kernel_cost_ms + (exit_ms - entry_ms) <= usize::MAX,
    ensures
        ({
            let t_in = m.current_metric().tmp_time_marker;
            let after = trap_exit_model(trap_entry_model(m, entry_ms), exit_ms).current_metric();
            &&& after.tmp_time_marker == exit_ms
            &&& after.user_cost_ms + after.kernel_cost_ms == m.current_metric().user_cost_ms
                + m.current_metric().kernel_cost_ms + (exit_ms - t_in)
        }),
{
    let m1 = trap_entry_model(m, entry_ms);
    assert(m1.current_metric() == m.current_metric().user_ended(entry_ms).started(entry_ms));
    let m2 = trap_exit_model(m1, exit_ms);
    assert(m2.current_metric() == m1.current_metric().kernel_ended(exit_ms).started(exit_ms));
}

} // verus!
