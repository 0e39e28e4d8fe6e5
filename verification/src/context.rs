//! Saved execution contexts.
//!
//! A [`TaskContext`] is the minimal resumable state of a suspended execution
//! path (return address, stack pointer, callee-saved registers on the real
//! machine; here the record is kept small but keeps its identity, which is
//! what the switch protocol is about). A [`TrapContext`] is the user-mode
//! register state saved when a task enters kernel code.

use vstd::prelude::*;

verus! {

/// Resumable execution state of a suspended control path.
///
/// The dispatch loop's own state lives in the processor's idle slot; each
/// task's state lives in its control block. The context-switch step moves
/// values between these slots and the live register state of the core.
#[derive(Clone, Copy, PartialEq, Eq, Structural, Debug)]
pub struct TaskContext {
    /// Return address: where execution resumes.
    pub ra: usize,
    /// Stack pointer of the suspended path.
    pub sp: usize,
}

impl TaskContext {
    /// An all-zero context, the initial value of the idle slot.
    pub fn zero_init() -> (cx: TaskContext)
        ensures
            cx == (TaskContext { ra: 0, sp: 0 }),
    {
        TaskContext { ra: 0, sp: 0 }
    }
}

/// User-mode register state captured at the last trap entry of a task.
/// Reachable only while the task is current.
#[derive(Clone, Copy, PartialEq, Eq, Structural, Debug)]
pub struct TrapContext {
    /// User program counter at the trap.
    pub sepc: usize,
    /// User stack pointer at the trap.
    pub sp: usize,
}

} // verus!
