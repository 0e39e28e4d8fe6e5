//! Scenario tests of the dispatch loop, the yield primitive, the current-task
//! accessors and the accounting, driven through the public API.

use processor::config::MAX_SYSCALL_NUM;
use processor::context::TaskContext;
use processor::sched;
use processor::sched::Core;
use processor::task::{TaskControlBlock, TaskStatus};

/// Ready queue yields task A with `first_time = 100`; the dispatch loop runs
/// at `now = 100`, sets A's status to Running and makes A current. At
/// `now = 150` the costed time is exactly 50. Counting syscall 5 once shows
/// index 5 incremented by one and all others unchanged.
#[test]
fn dispatch_accounting_scenario() {
    let mut core = Core::new();
    sched::set_time_ms(&mut core, 100);
    let task_a = TaskControlBlock::new(1, 100, 0xabc);
    sched::add_task(&mut core, task_a);

    let dispatched = sched::run_tasks(&mut core);
    assert!(dispatched);
    match &core.processor.current {
        Some(c) => {
            assert_eq!(c.pid, 1);
            assert!(matches!(c.status, TaskStatus::Running));
        }
        None => panic!("a task must be current after dispatch"),
    }

    sched::set_time_ms(&mut core, 150);
    assert_eq!(sched::get_current_task_costed_time(&core), 50);

    let before = sched::get_current_task_syscall_times(&core);
    sched::add_one_to_current_task(&mut core, 5);
    let after = sched::get_current_task_syscall_times(&core);
    assert_eq!(after.len(), MAX_SYSCALL_NUM);
    for i in 0..MAX_SYSCALL_NUM {
        if i == 5 {
            assert_eq!(after[i], before[i] + 1);
        } else {
            assert_eq!(after[i], before[i]);
        }
    }
}

/// A dispatched task calls the yield primitive with its own context slot:
/// execution resumes from the idle slot captured at dispatch time, and the
/// current slot still holds the task until it is taken.
#[test]
fn yield_resumes_idle_context() {
    let mut core = Core::new();
    // Give the dispatch loop a recognisable live state before dispatch.
    core.cpu_cx = TaskContext { ra: 0x1111, sp: 0x2222 };
    let mut task_a = TaskControlBlock::new(1, 0, 0);
    task_a.task_cx = TaskContext { ra: 0x3333, sp: 0x4444 };
    sched::add_task(&mut core, task_a);

    let dispatched = sched::run_tasks(&mut core);
    assert!(dispatched);
    // The idle slot captured the dispatch loop's state; the core now runs
    // from the task's saved context.
    assert_eq!(core.processor.idle_task_cx, TaskContext { ra: 0x1111, sp: 0x2222 });
    assert_eq!(core.cpu_cx, TaskContext { ra: 0x3333, sp: 0x4444 });
    let idle_at_dispatch = core.processor.idle_task_cx;

    // The task runs for a while, then yields with its own slot.
    core.cpu_cx = TaskContext { ra: 0x5555, sp: 0x6666 };
    let mut own_slot = TaskContext::zero_init();
    sched::schedule(&mut core, &mut own_slot);

    // The caller's live state was saved into the supplied slot, and the
    // resumption context is exactly the idle slot captured at dispatch time.
    assert_eq!(own_slot, TaskContext { ra: 0x5555, sp: 0x6666 });
    assert_eq!(core.cpu_cx, idle_at_dispatch);
    // The current slot is whatever the task left it as: still the task.
    match &core.processor.current {
        Some(c) => assert_eq!(c.pid, 1),
        None => panic!("yield must not empty the current slot"),
    }
    let taken = sched::take_current_task(&mut core);
    assert_eq!(taken.expect("still current").pid, 1);
}

/// `take_current_task` empties the slot: an immediate subsequent
/// `current_task` returns nothing until another dispatch occurs.
#[test]
fn take_empties_current_slot() {
    let mut core = Core::new();
    sched::add_task(&mut core, TaskControlBlock::new(9, 0, 0));
    assert!(sched::run_tasks(&mut core));
    assert!(sched::current_task(&core).is_some());

    let taken = sched::take_current_task(&mut core);
    assert_eq!(taken.expect("was current").pid, 9);
    assert!(sched::current_task(&core).is_none());
    // Idempotent on an already-empty slot.
    assert!(sched::take_current_task(&mut core).is_none());
    assert!(sched::current_task(&core).is_none());

    // Another dispatch refills the slot.
    sched::add_task(&mut core, TaskControlBlock::new(10, 0, 0));
    assert!(sched::run_tasks(&mut core));
    assert_eq!(sched::current_task(&core).expect("dispatched").pid, 10);
}

/// With an empty ready queue the dispatch loop's poll comes back empty-handed
/// and nothing changes (the kernel's loop busy-polls around it).
#[test]
fn empty_queue_polls_idle() {
    let mut core = Core::new();
    assert!(!sched::run_tasks(&mut core));
    assert!(core.processor.current.is_none());
    assert!(!sched::run_tasks(&mut core));
    assert!(core.processor.current.is_none());
}

/// Tasks are handed out front first, one per dispatch-loop activation; a task
/// that yields and is re-queued runs again after the others.
#[test]
fn dispatch_order_round_robin() {
    let mut core = Core::new();
    sched::add_task(&mut core, TaskControlBlock::new(1, 0, 0));
    sched::add_task(&mut core, TaskControlBlock::new(2, 0, 0));

    assert!(sched::run_tasks(&mut core));
    let mut task_a = sched::take_current_task(&mut core).expect("current");
    assert_eq!(task_a.pid, 1);

    // The suspend path: mark Ready, yield with the task's own slot, re-queue.
    task_a.status = TaskStatus::Ready;
    sched::schedule(&mut core, &mut task_a.task_cx);
    sched::add_task(&mut core, task_a);

    assert!(sched::run_tasks(&mut core));
    assert_eq!(sched::current_task(&core).expect("current").pid, 2);
    assert!(sched::take_current_task(&mut core).is_some());
    assert!(sched::run_tasks(&mut core));
    assert_eq!(sched::current_task(&core).expect("current").pid, 1);
}

/// The trap-context accessor hands out a mutable reference into the current
/// task; writes through it land in the task control block.
#[test]
fn trap_context_reference_writes_through() {
    let mut core = Core::new();
    sched::add_task(&mut core, TaskControlBlock::new(3, 0, 0));
    assert!(sched::run_tasks(&mut core));

    let cx = sched::current_trap_cx(&mut core);
    assert_eq!(cx.sepc, 0);
    cx.sepc = 0x8040_0000;
    cx.sp = 0x7fff_0000;

    let taken = sched::take_current_task(&mut core).expect("current");
    assert_eq!(taken.trap_cx.sepc, 0x8040_0000);
    assert_eq!(taken.trap_cx.sp, 0x7fff_0000);
}

/// The user-token accessor reports the address-space token of the current
/// task.
#[test]
fn user_token_of_current_task() {
    let mut core = Core::new();
    sched::add_task(&mut core, TaskControlBlock::new(4, 0, 0xdead_beef));
    assert!(sched::run_tasks(&mut core));
    assert_eq!(sched::current_user_token(&core), 0xdead_beef);
}

/// The core reports a dispatched task as Running.
#[test]
fn current_task_status_is_running() {
    assert!(matches!(sched::get_current_task_status(), TaskStatus::Running));
}

/// The clock is read back as set, and `current_task` hands out a snapshot:
/// counting a syscall afterwards does not change the snapshot.
#[test]
fn clock_and_snapshot_semantics() {
    let mut core = Core::new();
    assert_eq!(sched::get_time_ms(&core), 0);
    sched::set_time_ms(&mut core, 77);
    assert_eq!(sched::get_time_ms(&core), 77);

    sched::add_task(&mut core, TaskControlBlock::new(5, 7, 0));
    assert!(sched::run_tasks(&mut core));
    let snap = sched::current_task(&core).expect("current");
    assert_eq!(snap.syscall_times[42], 0);
    sched::add_one_to_current_task(&mut core, 42);
    // The earlier snapshot is a copy, not a second handle.
    assert_eq!(snap.syscall_times[42], 0);
    assert_eq!(sched::get_current_task_syscall_times(&core)[42], 1);
}

/// Counting twice accumulates; counters of a fresh task start at zero.
#[test]
fn syscall_counters_accumulate() {
    let mut core = Core::new();
    sched::add_task(&mut core, TaskControlBlock::new(6, 0, 0));
    assert!(sched::run_tasks(&mut core));
    let fresh = sched::get_current_task_syscall_times(&core);
    assert!(fresh.iter().all(|&c| c == 0));
    sched::add_one_to_current_task(&mut core, 0);
    sched::add_one_to_current_task(&mut core, 0);
    sched::add_one_to_current_task(&mut core, MAX_SYSCALL_NUM - 1);
    let counts = sched::get_current_task_syscall_times(&core);
    assert_eq!(counts[0], 2);
    assert_eq!(counts[MAX_SYSCALL_NUM - 1], 1);
    assert_eq!(counts[1], 0);
}

/// Elapsed time is measured from the task's own scheduling epoch.
#[test]
fn costed_time_uses_first_epoch() {
    let mut core = Core::new();
    sched::set_time_ms(&mut core, 40);
    sched::add_task(&mut core, TaskControlBlock::new(8, 25, 0));
    assert!(sched::run_tasks(&mut core));
    assert_eq!(sched::get_current_task_costed_time(&core), 15);
    sched::set_time_ms(&mut core, 40);
    assert_eq!(sched::get_current_task_costed_time(&core), 15);
    sched::set_time_ms(&mut core, 100);
    assert_eq!(sched::get_current_task_costed_time(&core), 75);
}
