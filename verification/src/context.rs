//! Saved execution context of a task.

use vstd::prelude::*;

verus! {

/// Minimal record of callee-preserved state needed to resume a task's
/// kernel-mode execution: a resume address, a kernel stack pointer, and the
/// twelve callee-saved registers.  The raw register-file swap between two such
/// records is a target-specific primitive and lives outside the library; here
/// a context is plain data.
#[derive(Clone, Copy, Debug)]
pub struct TaskContext {
    /// Address where execution resumes after a switch into this context.
    pub ra: usize,
    /// Kernel stack pointer.
    pub sp: usize,
    /// Callee-saved registers s0..s11.
    pub s: [usize; 12],
}

impl TaskContext {
    /// Throwaway all-zero context.  Used only to receive the boot flow's own
    /// discarded state during the very first switch; never resumed.
    pub fn zero_init() -> (r: TaskContext)
        ensures
            r.ra == 0,
            r.sp == 0,
            forall|i: int| 0 <= i < 12 ==> r.s@[i] == 0,
    {
        TaskContext { ra: 0, sp: 0, s: [0; 12] }
    }

    /// Context built once per task at boot: resuming it enters the restore
    /// trampoline at `restore_addr` on the kernel stack `kstack_ptr`, which
    /// re-installs the task's full user-mode register image and enters user
    /// mode.
    pub fn goto_restore(kstack_ptr: usize, restore_addr: usize) -> (r: TaskContext)
        ensures
            r.ra == restore_addr,
            r.sp == kstack_ptr,
            forall|i: int| 0 <= i < 12 ==> r.s@[i] == 0,
    {
        TaskContext { ra: restore_addr, sp: kstack_ptr, s: [0; 12] }
    }
}

} // verus!
