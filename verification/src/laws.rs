//! The scheduling invariant, proved over every interleaving.
//!
//! The operations of [`crate::sched`] are the atomic steps of this core:
//! between two context-switch points exactly one of them runs at a time (the
//! exclusive-access guard enforces that at run time, and it is released
//! before every switch). [`Step`] names each possible step, [`step_rel`] is
//! the transition each step establishes — every mutating function of
//! [`crate::sched`] ensures exactly its relation — and the lemmas here prove
//! that no interleaving of those steps can break the scheduling invariant:
//! at most one task is ever parked in the current slot, and that task's
//! status is `Running`.

use crate::context::TrapContext;
use crate::sched::{
    add_task_rel, count_rel, dispatch_rel, mmap_rel, munmap_rel, queue_eq, queue_wf, take_rel,
    tick_rel, write_trap_rel, yield_rel, Core,
};
use crate::task::{tcb_eq, TaskControlBlock, TaskStatus};
use vstd::prelude::*;

verus! {

/// One atomic step of the core: an activation of the dispatch loop, a yield,
/// taking or reading the current task, queueing a task, the clock moving, or
/// one of the current-task operations. Read-only operations are omitted:
/// they change nothing.
pub enum Step {
    /// One activation of the dispatch loop (`run_tasks`).
    Dispatch,
    /// The yield primitive (`schedule`).
    Yield,
    /// `take_current_task`.
    TakeCurrent,
    /// `add_task`, queueing the carried task control block.
    AddTask(TaskControlBlock),
    /// The clock moving forward to this value (`set_time_ms`).
    Tick(usize),
    /// `add_one_to_current_task` with this syscall identifier.
    CountSyscall(usize),
    /// A write through the reference `current_trap_cx` hands out, leaving
    /// this trap context behind.
    WriteTrap(TrapContext),
    /// `mmap` with these arguments.
    Mmap(usize, usize, usize),
    /// `munmap` with these arguments.
    Munmap(usize, usize),
}

/// The transition relation of one step: exactly what the corresponding
/// function of [`crate::sched`] ensures of the core.
pub open spec fn step_rel(pre: Core, post: Core, s: Step) -> bool {
    match s {
        Step::Dispatch => dispatch_rel(pre, post),
        Step::Yield => yield_rel(pre, post),
        Step::TakeCurrent => take_rel(pre, post),
        Step::AddTask(t) => add_task_rel(pre, post, t),
        Step::Tick(now) => tick_rel(pre, post, now),
        Step::CountSyscall(id) => count_rel(pre, post, id),
        Step::WriteTrap(cx) => write_trap_rel(pre, post, cx),
        Step::Mmap(start, len, port) => exists|r: isize| mmap_rel(pre, post, start, len, port, r),
        Step::Munmap(start, len) => exists|r: isize| munmap_rel(pre, post, start, len, r),
    }
}

/// Value-equal task control blocks are interchangeable in the invariant.
proof fn lemma_tcb_eq_transfers_wf(a: TaskControlBlock, b: TaskControlBlock)
    requires
        tcb_eq(a, b),
        b.wf(),
    ensures
        a.wf(),
{
}

/// A queue value-equal to a well-formed queue is itself well-formed, under
/// the same or a later clock value.
proof fn lemma_queue_eq_transfers_wf(a: Seq<TaskControlBlock>, b: Seq<TaskControlBlock>, now_b: usize, now_a: usize)
    requires
        queue_eq(a, b),
        queue_wf(b, now_b),
        now_b <= now_a,
    ensures
        queue_wf(a, now_a),
{
    assert forall|i: int|
        0 <= i < a.len() implies {
        &&& (#[trigger] a[i]).status == TaskStatus::Ready
        &&& a[i].wf()
        &&& a[i].first_time <= now_a
    } by {
        assert(tcb_eq(a[i], b[i]));
        assert(b[i].status == TaskStatus::Ready && b[i].wf() && b[i].first_time <= now_b);
        lemma_tcb_eq_transfers_wf(a[i], b[i]);
    }
}

/// One step of the core preserves the scheduling invariant.
pub proof fn lemma_step_preserves_wf(pre: Core, post: Core, s: Step)
    requires
        pre.wf(),
        step_rel(pre, post, s),
    ensures
        post.wf(),
{
    match s {
        Step::Dispatch => {
            if pre.ready_queue@.len() == 0 {
                lemma_unchanged_preserves_wf(pre, post);
            } else {
                lemma_queue_eq_transfers_wf(
                    post.ready_queue@,
                    pre.ready_queue@.drop_first(),
                    pre.now_ms,
                    post.now_ms,
                );
            }
        },
        Step::Yield => {
            lemma_unchanged_preserves_wf(pre, post);
        },
        Step::TakeCurrent => {
            lemma_queue_eq_transfers_wf(post.ready_queue@, pre.ready_queue@, pre.now_ms, post.now_ms);
        },
        Step::AddTask(t) => {
            if pre.processor.current is Some {
                lemma_tcb_eq_transfers_wf(
                    post.processor.current->Some_0,
                    pre.processor.current->Some_0,
                );
            }
            assert forall|i: int|
                0 <= i < post.ready_queue@.len() implies {
                &&& (#[trigger] post.ready_queue@[i]).status == TaskStatus::Ready
                &&& post.ready_queue@[i].wf()
                &&& post.ready_queue@[i].first_time <= post.now_ms
            } by {
                if i < pre.ready_queue@.len() {
                    assert(tcb_eq(post.ready_queue@[i], pre.ready_queue@[i]));
                    lemma_tcb_eq_transfers_wf(post.ready_queue@[i], pre.ready_queue@[i]);
                } else {
                    assert(tcb_eq(post.ready_queue@[i], t));
                    lemma_tcb_eq_transfers_wf(post.ready_queue@[i], t);
                }
            }
        },
        Step::Tick(_) => {
            lemma_unchanged_preserves_wf(pre, post);
        },
        Step::CountSyscall(_) => {
            lemma_queue_eq_transfers_wf(post.ready_queue@, pre.ready_queue@, pre.now_ms, post.now_ms);
        },
        Step::WriteTrap(_) => {
            lemma_queue_eq_transfers_wf(post.ready_queue@, pre.ready_queue@, pre.now_ms, post.now_ms);
        },
        Step::Mmap(..) => {
            lemma_queue_eq_transfers_wf(post.ready_queue@, pre.ready_queue@, pre.now_ms, post.now_ms);
        },
        Step::Munmap(..) => {
            lemma_queue_eq_transfers_wf(post.ready_queue@, pre.ready_queue@, pre.now_ms, post.now_ms);
        },
    }
}

/// A step that changes nothing observable preserves the invariant, also when
/// only the clock moved forward.
proof fn lemma_unchanged_preserves_wf(pre: Core, post: Core)
    requires
        pre.wf(),
        crate::task::opt_tcb_eq(post.processor.current, pre.processor.current),
        queue_eq(post.ready_queue@, pre.ready_queue@),
        pre.now_ms <= post.now_ms,
    ensures
        post.wf(),
{
    if pre.processor.current is Some {
        lemma_tcb_eq_transfers_wf(post.processor.current->Some_0, pre.processor.current->Some_0);
    }
    lemma_queue_eq_transfers_wf(post.ready_queue@, pre.ready_queue@, pre.now_ms, post.now_ms);
}

/// Law: for any interleaving of dispatch-loop activations, yields, and the
/// other operations of this core — any trace of states linked by steps —
/// starting from a well-formed state, every reached state satisfies the
/// scheduling invariant: at most one task is parked in the current slot (the
/// slot is an `Option`, so this is structural), and that task's status is
/// `Running`.
pub proof fn lemma_interleaving_preserves_invariant(trace: Seq<Core>, steps: Seq<Step>)
    requires
        trace.len() == steps.len() + 1,
        trace[0].wf(),
        forall|i: int| 0 <= i < steps.len() ==> step_rel(#[trigger] trace[i], trace[i + 1], steps[i]),
    ensures
        forall|i: int| 0 <= i < trace.len() ==> (#[trigger] trace[i]).wf(),
        forall|i: int|
            0 <= i < trace.len() ==> ((#[trigger] trace[i]).processor.current matches Some(c)
                ==> c.status == TaskStatus::Running),
    decreases steps.len(),
{
    if steps.len() > 0 {
        lemma_step_preserves_wf(trace[0], trace[1], steps[0]);
        let sub_trace = trace.subrange(1, trace.len() as int);
        let sub_steps = steps.subrange(1, steps.len() as int);
        assert forall|i: int|
            0 <= i < sub_steps.len() implies step_rel(
            #[trigger] sub_trace[i],
            sub_trace[i + 1],
            sub_steps[i],
        ) by {
            assert(step_rel(trace[i + 1], trace[i + 2], steps[i + 1]));
        }
        lemma_interleaving_preserves_invariant(sub_trace, sub_steps);
        assert forall|i: int| 0 <= i < trace.len() implies (#[trigger] trace[i]).wf() by {
            if i > 0 {
                assert(sub_trace[i - 1].wf());
            }
        }
    }
}

/// Law: once the current slot has been emptied, it stays empty under any
/// further steps that contain no dispatch; only the dispatch loop refills
/// it. (`take_current_task` empties the slot, so until another dispatch a
/// subsequent `current_task` returns nothing.)
pub proof fn lemma_idle_until_dispatch(trace: Seq<Core>, steps: Seq<Step>)
    requires
        trace.len() == steps.len() + 1,
        trace[0].processor.current is None,
        forall|i: int| 0 <= i < steps.len() ==> step_rel(#[trigger] trace[i], trace[i + 1], steps[i]),
        forall|i: int| 0 <= i < steps.len() ==> !((#[trigger] steps[i]) matches Step::Dispatch),
    ensures
        forall|i: int| 0 <= i < trace.len() ==> (#[trigger] trace[i]).processor.current is None,
    decreases steps.len(),
{
    if steps.len() > 0 {
        assert(step_rel(trace[0], trace[1], steps[0]));
        assert(trace[1].processor.current is None);
        let sub_trace = trace.subrange(1, trace.len() as int);
        let sub_steps = steps.subrange(1, steps.len() as int);
        assert forall|i: int|
            0 <= i < sub_steps.len() implies step_rel(
            #[trigger] sub_trace[i],
            sub_trace[i + 1],
            sub_steps[i],
        ) by {
            assert(step_rel(trace[i + 1], trace[i + 2], steps[i + 1]));
        }
        assert forall|i: int|
            0 <= i < sub_steps.len() implies !((#[trigger] sub_steps[i]) matches Step::Dispatch) by {
            assert(!(steps[i + 1] matches Step::Dispatch));
        }
        lemma_idle_until_dispatch(sub_trace, sub_steps);
        assert forall|i: int|
            0 <= i < trace.len() implies (#[trigger] trace[i]).processor.current is None by {
            if i > 0 {
                assert(sub_trace[i - 1].processor.current is None);
            }
        }
    }
}

} // verus!
