//! The syscall layer: dispatch by numeric id and the business logic of the
//! individual syscalls, as decisions on plain values.
//!
//! The ABI: the id arrives in a dedicated register, up to three arguments in
//! fixed registers, and the return value is written back into the first
//! argument register.  Console output itself, and the raw read of user
//! memory it needs, stay with the caller: a write is performed exactly when
//! the returned value is non-negative.

use vstd::prelude::*;

use crate::manager::{
    can_run_next, exit_current_and_run_next, exited_model, run_next_model, ScheduleOutcome,
    suspend_current_and_run_next, suspended_model, TaskManager,
};

verus! {

pub const SYSCALL_WRITE: usize = 64;

pub const SYSCALL_EXIT: usize = 93;

pub const SYSCALL_INFO_TASK: usize = 10001;

/// The only file descriptor the kernel supports: standard output.
pub const FD_STDOUT: usize = 1;

/// Bounds of the two regions a user buffer may lie in: the current task's
/// user stack `[stack_top, stack_bottom)` and its data (app) region
/// `[app_bottom, app_top)`.  Supplied by the memory-management collaborator.
#[derive(Clone, Copy, Debug, PartialEq, Eq, Structural)]
pub struct MemoryLayout {
    pub stack_top: usize,
    pub stack_bottom: usize,
    pub app_bottom: usize,
    pub app_top: usize,
}

/// A user buffer `[buf, buf + len)` is acceptable when it lies entirely
/// within the stack region or entirely within the app region.  The bound is
/// strict at the top: even the address one past the span must still fall
/// inside the region.
pub open spec fn span_in_ranges(buf: usize, len: usize, mem: MemoryLayout) -> bool {
    ||| (buf >= mem.stack_top && buf + len < mem.stack_bottom)
    ||| (buf >= mem.app_bottom && buf + len < mem.app_top)
}

/// Return value of `write`: the length written on success, `-1` on an
/// unsupported descriptor or an illegal buffer span.
pub open spec fn write_result(fd: usize, buf: usize, len: usize, mem: MemoryLayout) -> isize {
    if fd == FD_STDOUT && span_in_ranges(buf, len, mem) {
        len as isize
    } else {
        -1isize
    }
}

/// What the kernel does with a decoded syscall.
#[derive(Clone, Copy, Debug, PartialEq, Eq, Structural)]
pub enum SyscallDecision {
    /// Write the value into the first argument register and return to the
    /// task.
    Return(isize),
    /// Terminate the current task with this exit code and schedule the next.
    Exit(i32),
    /// Unknown syscall id: fatal — the kernel halts, never silently ignores
    /// it.
    Fatal,
}

/// Dispatch by syscall id on the three argument registers.
pub open spec fn syscall_model(
    id: usize,
    a0: usize,
    a1: usize,
    a2: usize,
    mem: MemoryLayout,
) -> SyscallDecision {
    if id == SYSCALL_WRITE {
        SyscallDecision::Return(write_result(a0, a1, a2, mem))
    } else if id == SYSCALL_EXIT {
        SyscallDecision::Exit(a0 as i32)
    } else if id == SYSCALL_INFO_TASK {
        SyscallDecision::Return(0)
    } else {
        SyscallDecision::Fatal
    }
}

/// Validate a user buffer span against the task's two legal regions.
pub fn range_check(buf: usize, len: usize, mem: &MemoryLayout) -> (r: bool)
    requires
        buf + len <= usize::MAX,
    ensures
        r == span_in_ranges(buf, len, *mem),
{
    if (buf >= mem.stack_top && buf + len < mem.stack_bottom) || (buf >= mem.app_bottom && buf + len
        < mem.app_top) {
        true
    } else {
        // the kernel logs the offending span and the legal regions at its console
        false
    }
}

/// `write(fd, buf, len)`: succeeds — returning `len` — exactly when `fd` is
/// standard output and `[buf, buf + len)` lies within the stack region or
/// the app region; `-1` otherwise, without touching kernel memory.  The
/// caller prints the buffer's bytes exactly when the result is
/// non-negative.
pub fn sys_write(fd: usize, buf: usize, len: usize, mem: &MemoryLayout) -> (r: isize)
    requires
        buf + len <= usize::MAX,
        len <= isize::MAX,
    ensures
        r == write_result(fd, buf, len, *mem),
        r != -1 <==> (fd == FD_STDOUT && span_in_ranges(buf, len, *mem)),
{
    if !range_check(buf, len, mem) {
        return -1;
    }
    if fd == FD_STDOUT {
        len as isize
    } else {
        // the kernel logs the unsupported descriptor at its console
        -1
    }
}

/// `info_task()`: reports the number of loaded tasks and returns 0.  The
/// report line itself is built by `info_task_log_line` and emitted by the
/// caller.
#[allow(unused_variables)]
pub fn sys_info_task(num_app: usize) -> (r: isize)
    ensures
        r == 0,
{
    0
}

/// `exit(code)`: terminate the current task and schedule the next one; in
/// the running kernel this call never returns into the exiting task.  The
/// exit code flows only into the caller's report line.
#[allow(unused_variables)]
pub fn sys_exit(tm: &mut TaskManager, exit_code: i32, now_ms: usize) -> (r: ScheduleOutcome)
    requires
        can_run_next(old(tm)@, now_ms),
    ensures
        final(tm)@ == run_next_model(exited_model(old(tm)@), now_ms).0,
        r == run_next_model(exited_model(old(tm)@), now_ms).1,
        final(tm).wf(),
        final(tm)@.only_current_open(),
{
    exit_current_and_run_next(tm, now_ms)
}

/// The yield syscall: suspend the current task and schedule the next one;
/// the yielding task sees the return value 0 when it is next resumed.
pub fn sys_yield(tm: &mut TaskManager, now_ms: usize) -> (r: (isize, ScheduleOutcome))
    requires
        can_run_next(old(tm)@, now_ms),
    ensures
        r.0 == 0,
        final(tm)@ == run_next_model(suspended_model(old(tm)@), now_ms).0,
        r.1 == run_next_model(suspended_model(old(tm)@), now_ms).1,
        final(tm).wf(),
        final(tm)@.only_current_open(),
{
    let outcome = suspend_current_and_run_next(tm, now_ms);
    (0, outcome)
}

/// Decode one syscall: id and the three argument registers.  An unknown id
/// is fatal for the whole kernel — the decision says so explicitly, it is
/// never silently ignored.
pub fn syscall(syscall_id: usize, args: [usize; 3], mem: &MemoryLayout, num_app: usize) -> (r: SyscallDecision)
    requires
        syscall_id == SYSCALL_WRITE ==> args@[1] + args@[2] <= usize::MAX && args@[2]
            <= isize::MAX,
    ensures
        r == syscall_model(syscall_id, args@[0], args@[1], args@[2], *mem),
{
    if syscall_id == SYSCALL_WRITE {
        SyscallDecision::Return(sys_write(args[0], args[1], args[2], mem))
    } else if syscall_id == SYSCALL_EXIT {
        SyscallDecision::Exit(args[0] as i32)
    } else if syscall_id == SYSCALL_INFO_TASK {
        SyscallDecision::Return(sys_info_task(num_app))
    } else {
        SyscallDecision::Fatal
    }
}

/// Decimal rendering of a number, most significant digit first.
pub open spec fn digit_char(d: int) -> char {
    ((48 + d) as u8) as char
}

pub open spec fn dec_digits(n: int) -> Seq<char>
    decreases n,
{
    if n < 10 {
        seq![digit_char(n)]
    } else {
        dec_digits(n / 10).push(digit_char(n % 10))
    }
}

/// The report line of `info_task()`.
pub open spec fn info_task_line(num_app: usize) -> Seq<char> {
    "current task num: "@ + dec_digits(num_app as int) + ", task name: task_"@ + dec_digits(
        num_app as int,
    )
}

/// Relies on alloc's `String::push`: appends exactly the given character.
pub assume_specification[ String::push ](s: &mut String, ch: char)
    ensures
        final(s)@ == old(s)@.push(ch),
;

/// Relies on alloc's `String::push_str`: appends exactly the given slice.
pub assume_specification[ String::push_str ](s: &mut String, other: &str)
    ensures
        final(s)@ == old(s)@ + other@,
;

/// Append the decimal rendering of `n`.
fn push_decimal(s: &mut String, n: usize)
    ensures
        final(s)@ == old(s)@ + dec_digits(n as int),
    decreases n,
{
    if n >= 10 {
        push_decimal(s, n / 10);
    }
    let d: u8 = 48 + (n % 10) as u8;
    s.push(d as char);
    proof {
        assert(d as char == digit_char(n as int % 10));
        if n < 10 {
            assert(dec_digits(n as int) =~= Seq::empty().push(digit_char(n as int)));
            assert(old(s)@ + dec_digits(n as int) =~= old(s)@.push(digit_char(n as int)));
        } else {
            assert(old(s)@ + dec_digits(n as int) =~= (old(s)@ + dec_digits(n as int / 10)).push(
                digit_char(n as int % 10),
            ));
        }
    }
}

/// Build the line that `info_task()` reports, digits and all; the caller
/// emits it on the console.
pub fn info_task_log_line(num_app: usize) -> (s: String)
    ensures
        s@ == info_task_line(num_app),
{
    let mut s = String::new();
    s.push_str("current task num: ");
    push_decimal(&mut s, num_app);
    s.push_str(", task name: task_");
    push_decimal(&mut s, num_app);
    proof {
        assert(s@ =~= info_task_line(num_app));
    }
    s
}

/// Seconds/microseconds split of a clock reading, as `get_time` writes it
/// into the user's buffer.  The page-table walk and the byte copy into user
/// memory stay with the caller.
#[derive(Clone, Copy, Debug, PartialEq, Eq, Structural)]
pub struct TimeVal {
    pub sec: usize,
    pub usec: usize,
}

impl TimeVal {
    pub fn from_us(us: usize) -> (r: TimeVal)
        ensures
            r.sec == us / 1_000_000,
            r.usec == us % 1_000_000,
    {
        TimeVal { sec: us / 1_000_000, usec: us % 1_000_000 }
    }
}

} // verus!
