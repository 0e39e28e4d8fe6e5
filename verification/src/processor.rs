//! The per-core processor record.
//!
//! A [`Processor`] holds the single current-task slot of one physical core
//! and the core's own idle saved-context slot. The current slot is move-only:
//! the dispatch loop moves a task in, `take_current` moves it out, so at most
//! one handle to the running task is ever parked here.

use crate::context::TaskContext;
use crate::task::{tcb_eq, TaskControlBlock};
use vstd::prelude::*;

verus! {

/// Processor management structure of one core.
pub struct Processor {
    /// The task currently executing on this core, if any. Non-empty exactly
    /// while a task is dispatched here.
    pub current: Option<TaskControlBlock>,
    /// The dispatch loop's own resumable state, written by the context-switch
    /// step when control leaves the loop and resumed from on yield.
    pub idle_task_cx: TaskContext,
}

impl Processor {
    /// An idle processor: empty current slot, zeroed idle context.
    pub fn new() -> (p: Processor)
        ensures
            p.current is None,
            p.idle_task_cx == (TaskContext { ra: 0, sp: 0 }),
    {
        Processor { current: None, idle_task_cx: TaskContext::zero_init() }
    }

    /// Move the current task out, leaving the slot empty. Idempotent on an
    /// already-empty slot.
    pub fn take_current(&mut self) -> (r: Option<TaskControlBlock>)
        ensures
            r == old(self).current,
            final(self).current is None,
            final(self).idle_task_cx == old(self).idle_task_cx,
    {
        self.current.take()
    }

    /// A snapshot of the current task, or nothing while idle. The slot keeps
    /// its handle; the caller gets an equal copy. Side-effect-free.
    pub fn current(&self) -> (r: Option<TaskControlBlock>)
        ensures
            self.current is None ==> r is None,
            self.current matches Some(c) ==> (r matches Some(s) && tcb_eq(s, c)),
    {
        match &self.current {
            Some(task) => Some(task.snapshot()),
            None => None,
        }
    }
}

} // verus!
