//! The core scheduling state and its operations.
//!
//! A [`Core`] value is the complete scheduler-visible state of one physical
//! core: its [`Processor`](crate::processor::Processor) (current-task slot and
//! idle context slot), the ready queue it pulls from, the live register state,
//! and the monotonic clock it reads. The kernel's boot path owns the one
//! `Core` of the machine and passes it, behind its exclusive-access guard, to
//! every operation here; at most one operation runs at a time, and suspension
//! happens only at the explicit context-switch points.
//!
//! The architecture-level context switch — save the live state into one slot,
//! resume from another — is represented as the corresponding move of
//! [`TaskContext`] values, so each operation's contract states exactly which
//! slot was saved into and which slot execution resumes from.
//!
//! Each mutating operation also establishes its transition relation
//! (`dispatch_rel`, `yield_rel`, ...), the building blocks of the proved
//! scheduling invariant in [`crate::laws`].

use crate::config::MAX_SYSCALL_NUM;
use crate::context::{TaskContext, TrapContext};
use crate::memory::{end_vpn, first_vpn};
use crate::processor::Processor;
use crate::task::{
    opt_tcb_eq, tcb_eq, tcb_eq_except_counts, tcb_eq_except_mappings, tcb_eq_except_status,
    tcb_eq_except_trap, TaskControlBlock, TaskStatus,
};
use vstd::pervasive::unreached;
use vstd::prelude::*;

verus! {

/// Scheduler state of one physical core.
pub struct Core {
    /// Current-task slot and idle context slot of this core.
    pub processor: Processor,
    /// Tasks waiting to run. The selection policy belongs to the external
    /// ready-queue collaborator; here the queue hands tasks out front first.
    pub ready_queue: Vec<TaskControlBlock>,
    /// The live register state of the core: what is executing right now.
    /// The context-switch step exchanges it with a saved-context slot.
    pub cpu_cx: TaskContext,
    /// Milliseconds reported by the timer collaborator; monotonic.
    pub now_ms: usize,
}

/// Value equality of two ready queues, element by element.
pub open spec fn queue_eq(a: Seq<TaskControlBlock>, b: Seq<TaskControlBlock>) -> bool {
    &&& a.len() == b.len()
    &&& forall|i: int| 0 <= i < a.len() ==> tcb_eq(#[trigger] a[i], b[i])
}

/// Well-formedness of a ready queue under clock value `now`: every queued
/// task is ready, internally well-formed, and was first scheduled no later
/// than `now`.
pub open spec fn queue_wf(q: Seq<TaskControlBlock>, now: usize) -> bool {
    forall|i: int|
        0 <= i < q.len() ==> {
            &&& (#[trigger] q[i]).status == TaskStatus::Ready
            &&& q[i].wf()
            &&& q[i].first_time <= now
        }
}

impl Core {
    /// The scheduling invariant of the core: the task parked in the current
    /// slot — there is at most one, the slot is an `Option` — is `Running`
    /// and well-formed, and every queued task is `Ready`, well-formed, and
    /// has a scheduling epoch no later than the clock.
    pub open spec fn wf(self) -> bool {
        &&& (self.processor.current matches Some(c) ==> {
            &&& c.status == TaskStatus::Running
            &&& c.wf()
            &&& c.first_time <= self.now_ms
        })
        &&& queue_wf(self.ready_queue@, self.now_ms)
    }

    /// A freshly booted, idle core: no current task, empty ready queue,
    /// zeroed context slots, clock at zero.
    pub fn new() -> (core: Core)
        ensures
            core.wf(),
            core.processor.current is None,
            core.ready_queue@ == Seq::<TaskControlBlock>::empty(),
            core.cpu_cx == (TaskContext { ra: 0, sp: 0 }),
            core.processor.idle_task_cx == (TaskContext { ra: 0, sp: 0 }),
            core.now_ms == 0,
    {
        Core {
            processor: Processor::new(),
            ready_queue: Vec::new(),
            cpu_cx: TaskContext::zero_init(),
            now_ms: 0,
        }
    }
}

/// Everything observable of the core is unchanged.
pub open spec fn unchanged_core(pre: Core, post: Core) -> bool {
    &&& opt_tcb_eq(post.processor.current, pre.processor.current)
    &&& post.processor.idle_task_cx == pre.processor.idle_task_cx
    &&& queue_eq(post.ready_queue@, pre.ready_queue@)
    &&& post.cpu_cx == pre.cpu_cx
    &&& post.now_ms == pre.now_ms
}

/// One activation of the dispatch loop. With an empty ready queue nothing
/// changes (the loop busy-polls); otherwise the front task is popped, marked
/// `Running`, parked in the current slot, the dispatch loop's own state is
/// saved into the idle slot, and execution resumes from the task's saved
/// context.
pub open spec fn dispatch_rel(pre: Core, post: Core) -> bool {
    if pre.ready_queue@.len() == 0 {
        unchanged_core(pre, post)
    } else {
        let t = pre.ready_queue@[0];
        &&& queue_eq(post.ready_queue@, pre.ready_queue@.drop_first())
        &&& (post.processor.current matches Some(c) && tcb_eq_except_status(c, t) && c.status
            == TaskStatus::Running)
        &&& post.processor.idle_task_cx == pre.cpu_cx
        &&& post.cpu_cx == t.task_cx
        &&& post.now_ms == pre.now_ms
    }
}

/// The yield primitive: the caller's live state is saved into the slot it
/// supplied, and execution resumes from the idle slot — right after the
/// switch that originally dispatched the caller. The current slot is left
/// exactly as the caller left it.
pub open spec fn yield_rel(pre: Core, post: Core) -> bool {
    &&& opt_tcb_eq(post.processor.current, pre.processor.current)
    &&& post.processor.idle_task_cx == pre.processor.idle_task_cx
    &&& queue_eq(post.ready_queue@, pre.ready_queue@)
    &&& post.cpu_cx == pre.processor.idle_task_cx
    &&& post.now_ms == pre.now_ms
}

/// The current slot is emptied; nothing else changes.
pub open spec fn take_rel(pre: Core, post: Core) -> bool {
    &&& post.processor.current is None
    &&& post.processor.idle_task_cx == pre.processor.idle_task_cx
    &&& queue_eq(post.ready_queue@, pre.ready_queue@)
    &&& post.cpu_cx == pre.cpu_cx
    &&& post.now_ms == pre.now_ms
}

/// A ready, well-formed task is appended to the ready queue.
pub open spec fn add_task_rel(pre: Core, post: Core, t: TaskControlBlock) -> bool {
    &&& t.status == TaskStatus::Ready
    &&& t.wf()
    &&& t.first_time <= pre.now_ms
    &&& post.ready_queue@.len() == pre.ready_queue@.len() + 1
    &&& forall|i: int|
        0 <= i < pre.ready_queue@.len() ==> tcb_eq(#[trigger] post.ready_queue@[i], pre.ready_queue@[i])
    &&& tcb_eq(post.ready_queue@[pre.ready_queue@.len() as int], t)
    &&& opt_tcb_eq(post.processor.current, pre.processor.current)
    &&& post.processor.idle_task_cx == pre.processor.idle_task_cx
    &&& post.cpu_cx == pre.cpu_cx
    &&& post.now_ms == pre.now_ms
}

/// The clock moves forward to `now`; nothing else changes.
pub open spec fn tick_rel(pre: Core, post: Core, now: usize) -> bool {
    &&& pre.now_ms <= now
    &&& post.now_ms == now
    &&& opt_tcb_eq(post.processor.current, pre.processor.current)
    &&& post.processor.idle_task_cx == pre.processor.idle_task_cx
    &&& queue_eq(post.ready_queue@, pre.ready_queue@)
    &&& post.cpu_cx == pre.cpu_cx
}

/// The current task's counter for syscall `id` grows by exactly one; every
/// other counter and everything else is untouched.
pub open spec fn count_rel(pre: Core, post: Core, id: usize) -> bool {
    &&& (pre.processor.current matches Some(c) && id < MAX_SYSCALL_NUM && c.syscall_times@.len()
        == MAX_SYSCALL_NUM && c.syscall_times@[id as int] < u32::MAX && (
    post.processor.current matches Some(c2) && tcb_eq_except_counts(c2, c) && c2.syscall_times@
        == c.syscall_times@.update(id as int, (c.syscall_times@[id as int] + 1) as u32)))
    &&& post.processor.idle_task_cx == pre.processor.idle_task_cx
    &&& queue_eq(post.ready_queue@, pre.ready_queue@)
    &&& post.cpu_cx == pre.cpu_cx
    &&& post.now_ms == pre.now_ms
}

/// The current task's trap context is overwritten with `cx`; everything else
/// is untouched.
pub open spec fn write_trap_rel(pre: Core, post: Core, cx: TrapContext) -> bool {
    &&& (pre.processor.current matches Some(c) && (post.processor.current matches Some(c2)
        && tcb_eq_except_trap(c2, c) && c2.trap_cx == cx))
    &&& post.processor.idle_task_cx == pre.processor.idle_task_cx
    &&& queue_eq(post.ready_queue@, pre.ready_queue@)
    &&& post.cpu_cx == pre.cpu_cx
    &&& post.now_ms == pre.now_ms
}

/// An `mmap` request is delegated to the current task's address space and
/// answers with status `r`: 0 with exactly the requested pages added, or -1
/// with the mappings untouched.
pub open spec fn mmap_rel(pre: Core, post: Core, start: usize, len: usize, port: usize, r: isize) -> bool {
    &&& (pre.processor.current matches Some(c) && (post.processor.current matches Some(c2)
        && tcb_eq_except_mappings(c2, c) && c2.memory_set.wf() && (r == 0 || r == -1) && ((r == 0)
        <==> c.memory_set.mmap_ok(start, len, port)) && (r == -1 ==> c2.memory_set.pages@
        == c.memory_set.pages@) && (r == 0 ==> forall|v: usize|
        #![trigger c2.memory_set.is_mapped(v)]
        #![trigger c.memory_set.is_mapped(v)]
        c2.memory_set.is_mapped(v) <==> (c.memory_set.is_mapped(v) || first_vpn(start) <= v
            < end_vpn(start, len)))))
    &&& post.processor.idle_task_cx == pre.processor.idle_task_cx
    &&& queue_eq(post.ready_queue@, pre.ready_queue@)
    &&& post.cpu_cx == pre.cpu_cx
    &&& post.now_ms == pre.now_ms
}

/// A `munmap` request is delegated to the current task's address space and
/// answers with status `r`: 0 with exactly the requested pages removed, or -1
/// with the mappings untouched.
pub open spec fn munmap_rel(pre: Core, post: Core, start: usize, len: usize, r: isize) -> bool {
    &&& (pre.processor.current matches Some(c) && (post.processor.current matches Some(c2)
        && tcb_eq_except_mappings(c2, c) && c2.memory_set.wf() && (r == 0 || r == -1) && ((r == 0)
        <==> c.memory_set.munmap_ok(start, len)) && (r == -1 ==> c2.memory_set.pages@
        == c.memory_set.pages@) && (r == 0 ==> forall|v: usize|
        #![trigger c2.memory_set.is_mapped(v)]
        #![trigger c.memory_set.is_mapped(v)]
        c2.memory_set.is_mapped(v) <==> (c.memory_set.is_mapped(v) && !(first_vpn(start) <= v
            < end_vpn(start, len))))))
    &&& post.processor.idle_task_cx == pre.processor.idle_task_cx
    &&& queue_eq(post.ready_queue@, pre.ready_queue@)
    &&& post.cpu_cx == pre.cpu_cx
    &&& post.now_ms == pre.now_ms
}

/// One activation of the dispatch loop, up to the moment control leaves it.
///
/// Polls the ready queue once. When a task is available it performs the full
/// handoff of §dispatch: mark the task `Running`, park it in the current
/// slot, save the loop's own state into the idle slot, and resume from the
/// task's saved context — in the kernel this is the one-way switch into the
/// task, so this function returns `true` with the core now executing the
/// task. With an empty queue it returns `false` and the surrounding kernel
/// loop polls again — the dispatch loop busy-polls, and the guard is not
/// held in between polls.
pub fn run_tasks(core: &mut Core) -> (dispatched: bool)
    requires
        old(core).wf(),
    ensures
        final(core).wf(),
        dispatched == (old(core).ready_queue@.len() > 0),
        dispatch_rel(*old(core), *final(core)),
{
    if core.ready_queue.len() == 0 {
        return false;
    }
    let mut task = core.ready_queue.remove(0);
    // The task's guard is held only for this bounded span: mark it Running
    // and capture its saved context, then the guard is released before the
    // switch.
    task.status = TaskStatus::Running;
    let next_task_cx = task.task_cx;
    // Ownership of the task moves into the current slot; the processor guard
    // is likewise released before the switch.
    core.processor.current = Some(task);
    // The context switch: save the dispatch loop's state into the idle slot,
    // resume from the task's saved context.
    core.processor.idle_task_cx = core.cpu_cx;
    core.cpu_cx = next_task_cx;
    proof {
        assert(core.ready_queue@ =~= old(core).ready_queue@.drop_first());
    }
    true
}

/// The yield primitive: hand control back to the dispatch loop.
///
/// The caller supplies the slot its own live state is to be saved into —
/// typically its task's saved-context slot, after the caller has already made
/// whatever status transition it wanted. The live state is saved there and
/// execution resumes from the idle slot, i.e. right after the switch that
/// originally dispatched the caller. The current slot stays as the caller
/// left it.
pub fn schedule(core: &mut Core, switched_task_cx: &mut TaskContext)
    ensures
        *final(switched_task_cx) == old(core).cpu_cx,
        yield_rel(*old(core), *final(core)),
        old(core).wf() ==> final(core).wf(),
{
    *switched_task_cx = core.cpu_cx;
    core.cpu_cx = core.processor.idle_task_cx;
}

/// Move the current task out of the processor, leaving the slot empty.
pub fn take_current_task(core: &mut Core) -> (r: Option<TaskControlBlock>)
    ensures
        r == old(core).processor.current,
        take_rel(*old(core), *final(core)),
        old(core).wf() ==> final(core).wf(),
{
    core.processor.take_current()
}

/// A snapshot of the current task, or nothing while the core is idle.
pub fn current_task(core: &Core) -> (r: Option<TaskControlBlock>)
    ensures
        core.processor.current is None ==> r is None,
        core.processor.current matches Some(c) ==> (r matches Some(s) && tcb_eq(s, c)),
{
    core.processor.current()
}

/// Hand the external ready-queue collaborator a task to queue. The task must
/// be ready, well-formed, and carry a scheduling epoch no later than the
/// clock.
pub fn add_task(core: &mut Core, task: TaskControlBlock)
    requires
        task.status == TaskStatus::Ready,
        task.wf(),
        task.first_time <= old(core).now_ms,
    ensures
        add_task_rel(*old(core), *final(core), task),
        old(core).wf() ==> final(core).wf(),
{
    core.ready_queue.push(task);
}

/// The timer collaborator: current time in milliseconds.
pub fn get_time_ms(core: &Core) -> (now: usize)
    ensures
        now == core.now_ms,
{
    core.now_ms
}

/// Advance the timer collaborator's clock. Time is monotonic: the clock
/// never moves backwards.
pub fn set_time_ms(core: &mut Core, now: usize)
    requires
        old(core).now_ms <= now,
    ensures
        tick_rel(*old(core), *final(core), now),
        old(core).wf() ==> final(core).wf(),
{
    core.now_ms = now;
}

/// Address-space token of the current task. Must only be called from within
/// a running task's own execution context: calling it on an idle core is an
/// invariant violation, excluded by the precondition.
pub fn current_user_token(core: &Core) -> (token: usize)
    requires
        core.processor.current is Some,
    ensures
        core.processor.current matches Some(c) ==> token == c.memory_set.token,
{
    match &core.processor.current {
        Some(task) => task.memory_set.token,
        None => unreached(),
    }
}

/// Mutable reference to the current task's trap context, valid for as long
/// as the borrow of the core lasts. Must only be called from within a
/// running task's own execution context (trap handlers acting on its behalf
/// included).
pub fn current_trap_cx(core: &mut Core) -> (r: &mut TrapContext)
    requires
        old(core).processor.current is Some,
    ensures
        old(core).processor.current matches Some(c0) ==> {
            &&& *r == c0.trap_cx
            &&& (final(core).processor.current matches Some(c1) && tcb_eq_except_trap(c1, c0)
                && c1.trap_cx == *final(r))
        },
        final(core).processor.idle_task_cx == old(core).processor.idle_task_cx,
        final(core).ready_queue@ == old(core).ready_queue@,
        final(core).cpu_cx == old(core).cpu_cx,
        final(core).now_ms == old(core).now_ms,
{
    match &mut core.processor.current {
        Some(task) => &mut task.trap_cx,
        None => unreached(),
    }
}

/// Status of the current task as this core reports it: a dispatched task is
/// `Running`.
pub fn get_current_task_status() -> (status: TaskStatus)
    ensures
        status == TaskStatus::Running,
{
    TaskStatus::Running
}

/// Elapsed time of the current task: the clock minus the task's scheduling
/// epoch. Non-negative, since the epoch never lies in the future of the
/// monotonic clock. Must only be called from within a running task's own
/// execution context.
pub fn get_current_task_costed_time(core: &Core) -> (costed: usize)
    requires
        core.wf(),
        core.processor.current is Some,
    ensures
        core.processor.current matches Some(c) ==> costed == core.now_ms - c.first_time,
{
    match &core.processor.current {
        Some(task) => core.now_ms - task.first_time,
        None => unreached(),
    }
}

/// Count one occurrence of syscall `call_id` against the current task:
/// its counter grows by exactly one and every other counter is untouched.
/// `call_id` must be a valid syscall identifier — it comes from a bounded
/// decode upstream — and the counter must not be saturated.
pub fn add_one_to_current_task(core: &mut Core, call_id: usize)
    requires
        old(core).wf(),
        old(core).processor.current is Some,
        call_id < MAX_SYSCALL_NUM,
        old(core).processor.current matches Some(c) ==> c.syscall_times@[call_id as int] < u32::MAX,
    ensures
        final(core).wf(),
        count_rel(*old(core), *final(core), call_id),
{
    match &mut core.processor.current {
        Some(task) => {
            let v = task.syscall_times[call_id];
            task.syscall_times[call_id] = v + 1;
        },
        None => unreached(),
    }
}

/// A copy of the current task's full syscall histogram. Must only be called
/// from within a running task's own execution context.
pub fn get_current_task_syscall_times(core: &Core) -> (times: Vec<u32>)
    requires
        core.processor.current is Some,
    ensures
        core.processor.current matches Some(c) ==> times@ == c.syscall_times@,
{
    match &core.processor.current {
        Some(task) => {
            let mut times: Vec<u32> = Vec::new();
            let mut i: usize = 0;
            while i < task.syscall_times.len()
                invariant
                    i <= task.syscall_times@.len(),
                    times@ == task.syscall_times@.subrange(0, i as int),
                decreases task.syscall_times@.len() - i,
            {
                times.push(task.syscall_times[i]);
                i = i + 1;
            }
            proof {
                assert(times@ =~= task.syscall_times@);
            }
            times
        },
        None => unreached(),
    }
}

/// Delegate an `mmap` request to the current task's address space and report
/// its status: 0 on success, -1 on a rejected request, with the mappings
/// untouched on rejection. Must only be called from within a running task's
/// own execution context.
pub fn mmap(core: &mut Core, start: usize, len: usize, port: usize) -> (r: isize)
    requires
        old(core).wf(),
        old(core).processor.current is Some,
    ensures
        final(core).wf(),
        mmap_rel(*old(core), *final(core), start, len, port, r),
{
    match &mut core.processor.current {
        Some(task) => task.memory_set.mmap(start, len, port),
        None => unreached(),
    }
}

/// Delegate a `munmap` request to the current task's address space and
/// report its status: 0 on success, -1 on a rejected request, with the
/// mappings untouched on rejection. Must only be called from within a
/// running task's own execution context.
pub fn munmap(core: &mut Core, start: usize, len: usize) -> (r: isize)
    requires
        old(core).wf(),
        old(core).processor.current is Some,
    ensures
        final(core).wf(),
        munmap_rel(*old(core), *final(core), start, len, r),
{
    match &mut core.processor.current {
        Some(task) => task.memory_set.munmap(start, len),
        None => unreached(),
    }
}

} // verus!
