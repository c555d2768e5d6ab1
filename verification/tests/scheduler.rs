use rr_kernel::context::TaskContext;
use rr_kernel::manager::{
    exit_current_and_run_next, run_first_task, suspend_current_and_run_next, ScheduleOutcome,
    TaskManager,
};
use rr_kernel::metric::TaskMetric;
use rr_kernel::task::TaskStatus;
use rr_kernel::MAX_APP_NUM;

fn boot_manager(num_app: usize) -> TaskManager {
    let mut cxs: Vec<TaskContext> = Vec::new();
    for i in 0..MAX_APP_NUM {
        cxs.push(TaskContext::goto_restore(0x8000_0000 + i * 0x1000, 0x4000_0000));
    }
    TaskManager::new(num_app, &cxs)
}

#[test]
fn boot_table_is_ready_with_cursor_on_zero() {
    let tm = boot_manager(3);
    assert_eq!(tm.num_app, 3);
    assert_eq!(tm.inner.current_task, 0);
    assert_eq!(tm.inner.tasks.len(), MAX_APP_NUM);
    for t in tm.inner.tasks.iter() {
        assert_eq!(t.task_status, TaskStatus::Ready);
        assert_eq!(t.task_metric, TaskMetric { user_cost_ms: 0, kernel_cost_ms: 0, tmp_time_marker: 0 });
    }
    assert_eq!(tm.inner.tasks[1].task_cx.sp, 0x8000_1000);
    assert_eq!(tm.inner.tasks[1].task_cx.ra, 0x4000_0000);
}

#[test]
fn first_task_runs_slot_zero_and_opens_user_window() {
    let mut tm = boot_manager(2);
    run_first_task(&mut tm, 1);
    assert_eq!(tm.inner.tasks[0].task_status, TaskStatus::Running);
    assert_eq!(tm.inner.tasks[0].task_metric.tmp_time_marker, 1);
    assert_eq!(tm.inner.tasks[1].task_status, TaskStatus::Ready);
    assert_eq!(tm.inner.current_task, 0);
}

#[test]
fn run_to_completion_visits_slots_in_increasing_order() {
    // run_first_task, then one exit per task, no yields: the exits switch
    // 0 -> 1 -> 2 and the final exit reports completion (the halt).
    let n: usize = 3;
    let mut tm = boot_manager(n);
    run_first_task(&mut tm, 1);
    let mut visited: Vec<usize> = vec![0];
    let mut now: usize = 10;
    loop {
        match exit_current_and_run_next(&mut tm, now) {
            ScheduleOutcome::Switched { from, to } => {
                assert_eq!(from, visited[visited.len() - 1]);
                visited.push(to);
            }
            ScheduleOutcome::AllCompleted => break,
        }
        now += 10;
    }
    assert_eq!(visited, vec![0, 1, 2]);
    for i in 0..n {
        assert_eq!(tm.inner.tasks[i].task_status, TaskStatus::Exited);
    }
}

#[test]
fn single_task_exit_completes_immediately() {
    let mut tm = boot_manager(1);
    run_first_task(&mut tm, 1);
    assert_eq!(exit_current_and_run_next(&mut tm, 4), ScheduleOutcome::AllCompleted);
    assert_eq!(tm.inner.tasks[0].task_status, TaskStatus::Exited);
}

#[test]
fn suspend_on_ready_task_is_idempotent_on_status() {
    let mut tm = boot_manager(2);
    run_first_task(&mut tm, 1);
    tm.mark_current_suspended();
    assert_eq!(tm.inner.tasks[0].task_status, TaskStatus::Ready);
    let before: Vec<TaskStatus> = tm.inner.tasks.iter().map(|t| t.task_status).collect();
    tm.mark_current_suspended();
    let after: Vec<TaskStatus> = tm.inner.tasks.iter().map(|t| t.task_status).collect();
    assert_eq!(before, after);
    assert_eq!(tm.inner.tasks[0].task_status, TaskStatus::Ready);
}

#[test]
fn round_robin_picks_nearest_ready_slot() {
    let mut tm = boot_manager(4);
    run_first_task(&mut tm, 1);
    // slot 1 exited by hand: the nearest Ready slot after 0 is now 2
    tm.inner.tasks[1].task_status = TaskStatus::Exited;
    assert_eq!(tm.find_next_task(), Some(2));
    // with every other slot gone the current (suspended) slot is picked last
    tm.inner.tasks[2].task_status = TaskStatus::Exited;
    tm.inner.tasks[3].task_status = TaskStatus::Exited;
    tm.mark_current_suspended();
    assert_eq!(tm.find_next_task(), Some(0));
    // and with nothing Ready there is no candidate
    tm.inner.tasks[0].task_status = TaskStatus::Exited;
    assert_eq!(tm.find_next_task(), None);
}

#[test]
fn suspend_and_run_next_switches_to_next_slot() {
    let mut tm = boot_manager(2);
    run_first_task(&mut tm, 1);
    let o = suspend_current_and_run_next(&mut tm, 6);
    assert_eq!(o, ScheduleOutcome::Switched { from: 0, to: 1 });
    assert_eq!(tm.inner.tasks[0].task_status, TaskStatus::Ready);
    assert_eq!(tm.inner.tasks[1].task_status, TaskStatus::Running);
    assert_eq!(tm.inner.current_task, 1);
    // the hand-off closed slot 0's window and opened slot 1's
    assert_eq!(tm.inner.tasks[0].task_metric.tmp_time_marker, 0);
    assert_eq!(tm.inner.tasks[1].task_metric.tmp_time_marker, 6);
}

#[test]
fn lone_task_can_yield_to_itself() {
    let mut tm = boot_manager(1);
    run_first_task(&mut tm, 1);
    tm.mark_current_suspended();
    let o = tm.run_next_task(9);
    assert_eq!(o, ScheduleOutcome::Switched { from: 0, to: 0 });
    assert_eq!(tm.inner.tasks[0].task_status, TaskStatus::Running);
}

#[test]
fn metric_windows_accumulate_exact_elapsed_time() {
    let mut m = TaskMetric { user_cost_ms: 0, kernel_cost_ms: 0, tmp_time_marker: 0 };
    m.mark_user_start(10);
    assert_eq!(m.tmp_time_marker, 10);
    m.mark_user_end(25);
    m.mark_kernel_start(25);
    m.mark_kernel_end(40);
    assert_eq!(m.user_cost_ms, 15);
    assert_eq!(m.kernel_cost_ms, 15);
    assert_eq!(m.tmp_time_marker, 0);
    // one full occupation 10..40 is accounted exactly, nothing open
    assert_eq!(m.user_cost_ms + m.kernel_cost_ms, 40 - 10);
}

#[test]
fn metric_end_without_start_is_a_no_op() {
    let mut m = TaskMetric { user_cost_ms: 7, kernel_cost_ms: 3, tmp_time_marker: 0 };
    m.mark_user_end(100);
    m.mark_kernel_end(100);
    assert_eq!(m, TaskMetric { user_cost_ms: 7, kernel_cost_ms: 3, tmp_time_marker: 0 });
}

#[test]
fn exited_task_accounts_its_full_wall_time() {
    // task 0 occupies the processor from ms 1 to ms 10, with one trap in
    // between; at Exited its user+kernel cost equals the wall time and no
    // window is left open.
    let mut tm = boot_manager(2);
    run_first_task(&mut tm, 1);
    // trap entry at 5: user window 1..5 closes, kernel window opens
    tm.mark_user_time_end(5);
    tm.mark_kernel_time_start(5);
    // back to user at 7, next trap entry at 9, exits at 10
    tm.mark_kernel_time_end(7);
    tm.mark_user_time_start(7);
    tm.mark_user_time_end(9);
    tm.mark_kernel_time_start(9);
    let o = exit_current_and_run_next(&mut tm, 10);
    assert_eq!(o, ScheduleOutcome::Switched { from: 0, to: 1 });
    let m = tm.inner.tasks[0].task_metric;
    assert_eq!(tm.inner.tasks[0].task_status, TaskStatus::Exited);
    assert_eq!(m.user_cost_ms, (5 - 1) + (9 - 7));
    assert_eq!(m.kernel_cost_ms, (7 - 5) + (10 - 9));
    assert_eq!(m.user_cost_ms + m.kernel_cost_ms, 10 - 1);
    assert_eq!(m.tmp_time_marker, 0);
}

#[test]
fn context_constructors_fill_the_record() {
    let z = TaskContext::zero_init();
    assert_eq!(z.ra, 0);
    assert_eq!(z.sp, 0);
    assert_eq!(z.s, [0usize; 12]);
    let g = TaskContext::goto_restore(0x8020_0000, 0x1234);
    assert_eq!(g.sp, 0x8020_0000);
    assert_eq!(g.ra, 0x1234);
    assert_eq!(g.s, [0usize; 12]);
}
