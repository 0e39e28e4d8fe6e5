//! Task control blocks.
//!
//! A task control block is owned by the external task-lifecycle collaborator;
//! the processor only borrows it transiently: the ready queue moves it in, the
//! dispatch loop parks it in the current slot, and `take_current` moves it out
//! again. The fields here are the ones the processor's access contract covers.

use crate::config::MAX_SYSCALL_NUM;
use crate::context::{TaskContext, TrapContext};
use crate::memory::MemorySet;
use vstd::prelude::*;

verus! {

/// Scheduling status of a task. The processor itself only ever performs the
/// `Ready` to `Running` transition, on dispatch; every other transition is
/// made by external code before it hands the task back or yields.
#[derive(Clone, Copy, PartialEq, Eq, Structural, Debug)]
pub enum TaskStatus {
    /// Runnable, sitting in the ready queue.
    Ready,
    /// Dispatched on the core.
    Running,
    /// Waiting on an external event.
    Blocked,
    /// Finished; awaiting reaping by the lifecycle collaborator.
    Exited,
}

/// Per-task owned state: status, saved contexts, accounting, address space.
pub struct TaskControlBlock {
    /// Task identifier.
    pub pid: usize,
    /// Scheduling status.
    pub status: TaskStatus,
    /// Resumable execution state of the task; the dispatch loop resumes from
    /// it and the yield primitive saves into a slot the caller designates.
    pub task_cx: TaskContext,
    /// User-mode register state at the last trap entry.
    pub trap_cx: TrapContext,
    /// Syscall histogram, indexed by syscall identifier; monotonically
    /// non-decreasing, `MAX_SYSCALL_NUM` entries.
    pub syscall_times: Vec<u32>,
    /// Timestamp of the first dispatch, the epoch for elapsed-time accounting.
    pub first_time: usize,
    /// Address space of the task.
    pub memory_set: MemorySet,
}

/// Value equality of two task control blocks, field by field.
pub open spec fn tcb_eq(a: TaskControlBlock, b: TaskControlBlock) -> bool {
    &&& a.pid == b.pid
    &&& a.status == b.status
    &&& a.task_cx == b.task_cx
    &&& a.trap_cx == b.trap_cx
    &&& a.syscall_times@ == b.syscall_times@
    &&& a.first_time == b.first_time
    &&& a.memory_set.token == b.memory_set.token
    &&& a.memory_set.pages@ == b.memory_set.pages@
}

/// Value equality of two current-task slots.
pub open spec fn opt_tcb_eq(a: Option<TaskControlBlock>, b: Option<TaskControlBlock>) -> bool {
    match (a, b) {
        (Option::None, Option::None) => true,
        (Option::Some(x), Option::Some(y)) => tcb_eq(x, y),
        _ => false,
    }
}

/// Value equality of two task control blocks everywhere but the status.
pub open spec fn tcb_eq_except_status(a: TaskControlBlock, b: TaskControlBlock) -> bool {
    &&& a.pid == b.pid
    &&& a.task_cx == b.task_cx
    &&& a.trap_cx == b.trap_cx
    &&& a.syscall_times@ == b.syscall_times@
    &&& a.first_time == b.first_time
    &&& a.memory_set.token == b.memory_set.token
    &&& a.memory_set.pages@ == b.memory_set.pages@
}

/// Value equality of two task control blocks everywhere but the trap context.
pub open spec fn tcb_eq_except_trap(a: TaskControlBlock, b: TaskControlBlock) -> bool {
    &&& a.pid == b.pid
    &&& a.status == b.status
    &&& a.task_cx == b.task_cx
    &&& a.syscall_times@ == b.syscall_times@
    &&& a.first_time == b.first_time
    &&& a.memory_set.token == b.memory_set.token
    &&& a.memory_set.pages@ == b.memory_set.pages@
}

/// Value equality of two task control blocks everywhere but the syscall
/// counters.
pub open spec fn tcb_eq_except_counts(a: TaskControlBlock, b: TaskControlBlock) -> bool {
    &&& a.pid == b.pid
    &&& a.status == b.status
    &&& a.task_cx == b.task_cx
    &&& a.trap_cx == b.trap_cx
    &&& a.first_time == b.first_time
    &&& a.memory_set.token == b.memory_set.token
    &&& a.memory_set.pages@ == b.memory_set.pages@
}

/// Value equality of two task control blocks everywhere but the address
/// space's mappings (the token is still equal).
pub open spec fn tcb_eq_except_mappings(a: TaskControlBlock, b: TaskControlBlock) -> bool {
    &&& a.pid == b.pid
    &&& a.status == b.status
    &&& a.task_cx == b.task_cx
    &&& a.trap_cx == b.trap_cx
    &&& a.syscall_times@ == b.syscall_times@
    &&& a.first_time == b.first_time
    &&& a.memory_set.token == b.memory_set.token
}

impl TaskControlBlock {
    /// Well-formed: the counter vector has its configured width and the
    /// address space records each page once.
    pub open spec fn wf(self) -> bool {
        &&& self.syscall_times@.len() == MAX_SYSCALL_NUM
        &&& self.memory_set.wf()
    }

    /// A fresh ready task: zeroed contexts and counters, an empty address
    /// space with the given token, `first_time` as its scheduling epoch.
    pub fn new(pid: usize, first_time: usize, token: usize) -> (t: TaskControlBlock)
        ensures
            t.wf(),
            t.pid == pid,
            t.status == TaskStatus::Ready,
            t.task_cx == (TaskContext { ra: 0, sp: 0 }),
            t.trap_cx == (TrapContext { sepc: 0, sp: 0 }),
            t.first_time == first_time,
            t.memory_set.token == token,
            t.memory_set.pages@ == Seq::<usize>::empty(),
            forall|v: usize| !(#[trigger] t.memory_set.is_mapped(v)),
            forall|i: int| 0 <= i < MAX_SYSCALL_NUM ==> t.syscall_times@[i] == 0,
    {
        let mut syscall_times: Vec<u32> = Vec::new();
        let mut i: usize = 0;
        while i < MAX_SYSCALL_NUM
            invariant
                i <= MAX_SYSCALL_NUM,
                syscall_times@.len() == i,
                forall|j: int| 0 <= j < i ==> syscall_times@[j] == 0,
            decreases MAX_SYSCALL_NUM - i,
        {
            syscall_times.push(0);
            i = i + 1;
        }
        TaskControlBlock {
            pid,
            status: TaskStatus::Ready,
            task_cx: TaskContext::zero_init(),
            trap_cx: TrapContext { sepc: 0, sp: 0 },
            syscall_times,
            first_time,
            memory_set: MemorySet::new(token),
        }
    }

    /// A field-by-field equal copy of the task control block. This is what
    /// `current_task` hands out: a snapshot, while the processor keeps the
    /// one handle parked in its current slot.
    pub fn snapshot(&self) -> (t: TaskControlBlock)
        ensures
            tcb_eq(t, *self),
    {
        let mut syscall_times: Vec<u32> = Vec::new();
        let mut i: usize = 0;
        while i < self.syscall_times.len()
            invariant
                i <= self.syscall_times@.len(),
                syscall_times@ == self.syscall_times@.subrange(0, i as int),
            decreases self.syscall_times@.len() - i,
        {
            syscall_times.push(self.syscall_times[i]);
            i = i + 1;
        }
        proof {
            assert(syscall_times@ =~= self.syscall_times@);
        }
        TaskControlBlock {
            pid: self.pid,
            status: self.status,
            task_cx: self.task_cx,
            trap_cx: self.trap_cx,
            syscall_times,
            first_time: self.first_time,
            memory_set: self.memory_set.snapshot(),
        }
    }
}

} // verus!
