//! Configuration constants of the core.

use vstd::prelude::*;

verus! {

/// Width of the per-task syscall counter vector: counters are indexed by
/// syscall identifiers in `[0, MAX_SYSCALL_NUM)`.
pub const MAX_SYSCALL_NUM: usize = 500;

/// Size in bytes of one page of the address space.
pub const PAGE_SIZE: usize = 4096;

} // verus!
