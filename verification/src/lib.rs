//! Single-core processor / scheduler abstraction of a cooperative kernel.
//!
//! The crate models the part of a kernel that owns the notion of "the task
//! currently running on this CPU": the handoff of control between the idle
//! dispatch loop and user tasks, per-task accounting (elapsed time, syscall
//! histogram), and memory-mapping requests delegated to the current task.
//!
//! Everything operates on one explicit [`sched::Core`] value, the state of a
//! single physical core; the kernel's boot path owns it and threads it through
//! every call. The architecture-level context switch is represented as a
//! data-level move between saved-context slots, so the whole switch protocol
//! and its invariants can be stated and proved.

pub mod config;
pub mod context;
pub mod laws;
pub mod memory;
pub mod processor;
pub mod sched;
pub mod task;
