use rr_kernel::context::TaskContext;
use rr_kernel::manager::{run_first_task, ScheduleOutcome, TaskManager};
use rr_kernel::syscall::{
    info_task_log_line, range_check, sys_exit, sys_info_task, sys_write, sys_yield, syscall,
    MemoryLayout, SyscallDecision, TimeVal,
};
use rr_kernel::task::TaskStatus;
use rr_kernel::trap::{
    check_kernel_interrupt, kernel_trap_handler, mark_kernel_interrupt, trap_handler,
    user_trap_handler, KernelInterruptFlag, Privilege, TrapCause, TrapContext, TrapOutcome,
};
use rr_kernel::MAX_APP_NUM;

fn boot_manager(num_app: usize) -> TaskManager {
    let mut cxs: Vec<TaskContext> = Vec::new();
    for i in 0..MAX_APP_NUM {
        cxs.push(TaskContext::goto_restore(0x8000_0000 + i * 0x1000, 0x4000_0000));
    }
    TaskManager::new(num_app, &cxs)
}

fn test_layout() -> MemoryLayout {
    MemoryLayout {
        stack_top: 0x1000,
        stack_bottom: 0x2000,
        app_bottom: 0x8000,
        app_top: 0x9000,
    }
}

fn user_cx(x17: usize, x10: usize, x11: usize, x12: usize) -> TrapContext {
    let mut x = [0usize; 32];
    x[17] = x17;
    x[10] = x10;
    x[11] = x11;
    x[12] = x12;
    TrapContext { x, sstatus: 0, sepc: 0x10_0000 }
}

#[test]
fn write_accepts_spans_inside_stack_or_app_region() {
    let mem = test_layout();
    // the whole stack region but its last byte succeeds
    let len = mem.stack_bottom - mem.stack_top - 1;
    assert_eq!(sys_write(1, mem.stack_top, len, &mem), len as isize);
    // one byte below the stack region fails
    assert_eq!(sys_write(1, mem.stack_top - 1, len, &mem), -1);
    // a span inside the app region succeeds
    assert_eq!(sys_write(1, 0x8100, 0x10, &mem), 0x10);
    // a span crossing out of the app region fails
    assert_eq!(sys_write(1, 0x8fff, 0x10, &mem), -1);
    // a span bridging the gap between the regions fails
    assert_eq!(sys_write(1, 0x1800, 0x7000, &mem), -1);
}

#[test]
fn write_rejects_unsupported_descriptors() {
    let mem = test_layout();
    assert_eq!(sys_write(0, mem.stack_top, 4, &mem), -1);
    assert_eq!(sys_write(2, mem.stack_top, 4, &mem), -1);
    // an empty write to stdout still succeeds with 0 bytes
    assert_eq!(sys_write(1, mem.stack_top, 0, &mem), 0);
}

#[test]
fn range_check_matches_the_two_regions() {
    let mem = test_layout();
    assert!(range_check(mem.stack_top, 0x100, &mem));
    assert!(range_check(0x8000, 0xfff, &mem));
    assert!(!range_check(0x8000, 0x1000, &mem));
    assert!(!range_check(0, 4, &mem));
}

#[test]
fn info_task_returns_zero_and_reports_the_task_count() {
    assert_eq!(sys_info_task(2), 0);
    let line = info_task_log_line(2);
    assert_eq!(line.as_str(), "current task num: 2, task name: task_2");
    assert_eq!(info_task_log_line(16).as_str(), "current task num: 16, task name: task_16");
    assert_eq!(info_task_log_line(0).as_str(), "current task num: 0, task name: task_0");
}

#[test]
fn syscall_dispatches_by_id() {
    let mem = test_layout();
    assert_eq!(
        syscall(64, [1, mem.stack_top, 8], &mem, 2),
        SyscallDecision::Return(8)
    );
    assert_eq!(syscall(64, [1, 0, 8], &mem, 2), SyscallDecision::Return(-1));
    assert_eq!(syscall(93, [7, 0, 0], &mem, 2), SyscallDecision::Exit(7));
    assert_eq!(syscall(10001, [0, 0, 0], &mem, 2), SyscallDecision::Return(0));
}

#[test]
fn unknown_syscall_id_is_fatal_not_ignored() {
    let mem = test_layout();
    assert_eq!(syscall(999, [0, 0, 0], &mem, 2), SyscallDecision::Fatal);
    assert_eq!(syscall(0, [0, 0, 0], &mem, 2), SyscallDecision::Fatal);
    // and through the trap path the kernel halts
    let mut tm = boot_manager(2);
    run_first_task(&mut tm, 1);
    let mut cx = user_cx(999, 0, 0, 0);
    let r = user_trap_handler(&mut tm, &mut cx, TrapCause::UserEnvCall, &mem, 5, 6);
    assert_eq!(r, TrapOutcome::FatalHalt);
}

#[test]
fn syscall_trap_advances_pc_and_writes_result_register() {
    let mem = test_layout();
    let mut tm = boot_manager(2);
    run_first_task(&mut tm, 1);
    let mut cx = user_cx(64, 1, mem.stack_top, 8);
    let sepc_before = cx.sepc;
    let r = user_trap_handler(&mut tm, &mut cx, TrapCause::UserEnvCall, &mem, 5, 7);
    assert_eq!(r, TrapOutcome::ContinueUser);
    assert_eq!(cx.sepc, sepc_before + 4);
    assert_eq!(cx.x[10], 8);
    // the trap cost 2 ms of kernel time; 4 ms of user time preceded it
    let m = tm.inner.tasks[0].task_metric;
    assert_eq!(m.user_cost_ms, 4);
    assert_eq!(m.kernel_cost_ms, 2);
    assert_eq!(m.tmp_time_marker, 7);
}

#[test]
fn exit_syscall_terminates_task_and_schedules_next() {
    let mem = test_layout();
    let mut tm = boot_manager(2);
    run_first_task(&mut tm, 1);
    let mut cx = user_cx(93, 0, 0, 0);
    let r = user_trap_handler(&mut tm, &mut cx, TrapCause::UserEnvCall, &mem, 5, 6);
    assert_eq!(r, TrapOutcome::Scheduled(ScheduleOutcome::Switched { from: 0, to: 1 }));
    assert_eq!(tm.inner.tasks[0].task_status, TaskStatus::Exited);
    assert_eq!(tm.inner.tasks[1].task_status, TaskStatus::Running);
}

#[test]
fn illegal_instruction_kills_task_and_schedules_on() {
    let mem = test_layout();
    let mut tm = boot_manager(2);
    run_first_task(&mut tm, 1);
    let mut cx = user_cx(0, 0, 0, 0);
    let r = user_trap_handler(&mut tm, &mut cx, TrapCause::IllegalInstruction, &mem, 5, 6);
    assert_eq!(r, TrapOutcome::Scheduled(ScheduleOutcome::Switched { from: 0, to: 1 }));
    assert_eq!(tm.inner.tasks[0].task_status, TaskStatus::Exited);
    // with no Ready task left, a second offender halts the machine
    let r2 = user_trap_handler(&mut tm, &mut cx, TrapCause::IllegalInstruction, &mem, 8, 9);
    assert_eq!(r2, TrapOutcome::Scheduled(ScheduleOutcome::AllCompleted));
    assert_eq!(tm.inner.tasks[1].task_status, TaskStatus::Exited);
}

#[test]
fn store_fault_kills_only_the_offending_task() {
    let mem = test_layout();
    let mut tm = boot_manager(2);
    run_first_task(&mut tm, 1);
    let mut cx = user_cx(0, 0, 0, 0);
    let r = user_trap_handler(&mut tm, &mut cx, TrapCause::StorePageFault, &mem, 5, 6);
    assert_eq!(r, TrapOutcome::Scheduled(ScheduleOutcome::Switched { from: 0, to: 1 }));
    assert_eq!(tm.inner.tasks[0].task_status, TaskStatus::Exited);
    assert_eq!(tm.inner.tasks[1].task_status, TaskStatus::Running);
}

#[test]
fn timer_trap_preempts_round_robin() {
    let mem = test_layout();
    let mut tm = boot_manager(2);
    run_first_task(&mut tm, 1);
    let mut cx = user_cx(0, 0, 0, 0);
    let r = user_trap_handler(&mut tm, &mut cx, TrapCause::SupervisorTimer, &mem, 5, 6);
    assert_eq!(r, TrapOutcome::Scheduled(ScheduleOutcome::Switched { from: 0, to: 1 }));
    assert_eq!(tm.inner.tasks[0].task_status, TaskStatus::Ready);
    assert_eq!(tm.inner.tasks[1].task_status, TaskStatus::Running);
    // preempting the second task wraps back to the first
    let r2 = user_trap_handler(&mut tm, &mut cx, TrapCause::SupervisorTimer, &mem, 8, 9);
    assert_eq!(r2, TrapOutcome::Scheduled(ScheduleOutcome::Switched { from: 1, to: 0 }));
}

#[test]
fn unknown_user_trap_cause_is_fatal() {
    let mem = test_layout();
    let mut tm = boot_manager(2);
    run_first_task(&mut tm, 1);
    let mut cx = user_cx(0, 0, 0, 0);
    let r = user_trap_handler(&mut tm, &mut cx, TrapCause::Unknown, &mem, 5, 6);
    assert_eq!(r, TrapOutcome::FatalHalt);
}

#[test]
fn kernel_timer_trap_sets_flag_and_resumes() {
    let mut flag = KernelInterruptFlag::new();
    assert!(!check_kernel_interrupt(&flag));
    let r = kernel_trap_handler(&mut flag, TrapCause::SupervisorTimer);
    assert_eq!(r, TrapOutcome::ContinueKernel);
    assert!(check_kernel_interrupt(&flag));
}

#[test]
fn kernel_memory_fault_is_unrecoverable() {
    let mut flag = KernelInterruptFlag::new();
    assert_eq!(kernel_trap_handler(&mut flag, TrapCause::StoreFault), TrapOutcome::FatalHalt);
    assert_eq!(kernel_trap_handler(&mut flag, TrapCause::StorePageFault), TrapOutcome::FatalHalt);
    assert_eq!(kernel_trap_handler(&mut flag, TrapCause::Unknown), TrapOutcome::FatalHalt);
    assert!(!check_kernel_interrupt(&flag));
}

#[test]
fn trap_entry_routes_by_privilege() {
    let mem = test_layout();
    let mut tm = boot_manager(2);
    run_first_task(&mut tm, 1);
    let mut flag = KernelInterruptFlag::new();
    let mut cx = user_cx(0, 0, 0, 0);
    let r = trap_handler(
        &mut tm,
        &mut cx,
        &mut flag,
        Privilege::Supervisor,
        TrapCause::SupervisorTimer,
        &mem,
        5,
        6,
    );
    assert_eq!(r, TrapOutcome::ContinueKernel);
    assert!(flag.triggered);
    // the user path was untouched by the kernel trap
    assert_eq!(tm.inner.tasks[0].task_status, TaskStatus::Running);
    let r2 = trap_handler(
        &mut tm,
        &mut cx,
        &mut flag,
        Privilege::User,
        TrapCause::SupervisorTimer,
        &mem,
        5,
        6,
    );
    assert_eq!(r2, TrapOutcome::Scheduled(ScheduleOutcome::Switched { from: 0, to: 1 }));
}

#[test]
fn mark_kernel_interrupt_is_sticky() {
    let mut flag = KernelInterruptFlag::new();
    mark_kernel_interrupt(&mut flag);
    mark_kernel_interrupt(&mut flag);
    assert!(flag.triggered);
}

#[test]
fn yield_returns_zero_after_rescheduling() {
    let mut tm = boot_manager(2);
    run_first_task(&mut tm, 1);
    // close the user window and open the kernel one, as the trap path does
    tm.mark_user_time_end(5);
    tm.mark_kernel_time_start(5);
    let (ret, o) = sys_yield(&mut tm, 6);
    assert_eq!(ret, 0);
    assert_eq!(o, ScheduleOutcome::Switched { from: 0, to: 1 });
    assert_eq!(tm.inner.tasks[0].task_status, TaskStatus::Ready);
}

#[test]
fn exit_syscall_helper_reports_schedule_outcome() {
    let mut tm = boot_manager(1);
    run_first_task(&mut tm, 1);
    tm.mark_user_time_end(5);
    tm.mark_kernel_time_start(5);
    let o = sys_exit(&mut tm, 0, 6);
    assert_eq!(o, ScheduleOutcome::AllCompleted);
    assert_eq!(tm.inner.tasks[0].task_status, TaskStatus::Exited);
}

#[test]
fn time_val_splits_microseconds() {
    let tv = TimeVal::from_us(3_456_789);
    assert_eq!(tv, TimeVal { sec: 3, usec: 456_789 });
    let tv0 = TimeVal::from_us(999_999);
    assert_eq!(tv0, TimeVal { sec: 0, usec: 999_999 });
}
