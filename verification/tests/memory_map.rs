//! Tests of the memory-mapping delegation: the failure taxonomy of
//! `mmap`/`munmap` and that a rejected request alters nothing.

use processor::config::PAGE_SIZE;
use processor::memory::MemorySet;
use processor::sched;
use processor::sched::Core;
use processor::task::TaskControlBlock;

fn core_with_task() -> Core {
    let mut core = Core::new();
    sched::add_task(&mut core, TaskControlBlock::new(1, 0, 0));
    assert!(sched::run_tasks(&mut core));
    core
}

/// A valid request maps the pages of the range; its pages can be unmapped
/// again.
#[test]
fn mmap_then_munmap_roundtrip() {
    let mut core = core_with_task();
    assert_eq!(sched::mmap(&mut core, PAGE_SIZE, 3 * PAGE_SIZE, 0b111), 0);
    assert_eq!(sched::munmap(&mut core, PAGE_SIZE, 3 * PAGE_SIZE), 0);
    // Fully unmapped again: the same range maps afresh.
    assert_eq!(sched::mmap(&mut core, PAGE_SIZE, 3 * PAGE_SIZE, 0b001), 0);
}

/// `mmap` on a range overlapping an existing mapping returns a negative
/// status and does not alter the existing mappings.
#[test]
fn mmap_overlap_rejected_without_damage() {
    let mut core = core_with_task();
    assert_eq!(sched::mmap(&mut core, 2 * PAGE_SIZE, 2 * PAGE_SIZE, 0b011), 0);
    // Overlaps the second mapped page.
    assert!(sched::mmap(&mut core, 3 * PAGE_SIZE, 2 * PAGE_SIZE, 0b011) < 0);
    // The original mapping is intact: unmapping it in full still succeeds,
    // and the page the rejected request would have added was never mapped.
    assert!(sched::munmap(&mut core, 4 * PAGE_SIZE, PAGE_SIZE) < 0);
    assert_eq!(sched::munmap(&mut core, 2 * PAGE_SIZE, 2 * PAGE_SIZE), 0);
}

/// The failure taxonomy of `mmap`: misalignment, zero length, overflowing
/// range, invalid permission bits.
#[test]
fn mmap_rejects_invalid_requests() {
    let mut core = core_with_task();
    // Misaligned start.
    assert!(sched::mmap(&mut core, PAGE_SIZE + 1, PAGE_SIZE, 0b111) < 0);
    // Zero length.
    assert!(sched::mmap(&mut core, PAGE_SIZE, 0, 0b111) < 0);
    // Range overflows the address width.
    let aligned_top = (usize::MAX / PAGE_SIZE) * PAGE_SIZE;
    assert!(sched::mmap(&mut core, aligned_top, usize::MAX, 0b111) < 0);
    // No permission bit set.
    assert!(sched::mmap(&mut core, PAGE_SIZE, PAGE_SIZE, 0) < 0);
    // Bits above the three permission bits set.
    assert!(sched::mmap(&mut core, PAGE_SIZE, PAGE_SIZE, 0b1000) < 0);
    assert!(sched::mmap(&mut core, PAGE_SIZE, PAGE_SIZE, 0b1_0111) < 0);
    // Nothing was mapped by any of the rejected requests.
    assert!(sched::munmap(&mut core, PAGE_SIZE, PAGE_SIZE) < 0);
    // A well-formed request still succeeds afterwards.
    assert_eq!(sched::mmap(&mut core, PAGE_SIZE, PAGE_SIZE, 0b111), 0);
}

/// The failure taxonomy of `munmap`: misalignment, zero length, overflowing
/// range, and a range not fully mapped; a rejected request unmaps nothing.
#[test]
fn munmap_rejects_invalid_requests() {
    let mut core = core_with_task();
    assert_eq!(sched::mmap(&mut core, PAGE_SIZE, PAGE_SIZE, 0b111), 0);
    // Misaligned start.
    assert!(sched::munmap(&mut core, PAGE_SIZE + 1, PAGE_SIZE) < 0);
    // Zero length.
    assert!(sched::munmap(&mut core, PAGE_SIZE, 0) < 0);
    // Range overflows the address width.
    let aligned_top = (usize::MAX / PAGE_SIZE) * PAGE_SIZE;
    assert!(sched::munmap(&mut core, aligned_top, usize::MAX) < 0);
    // Range reaches beyond the mapping: partially unmapped.
    assert!(sched::munmap(&mut core, PAGE_SIZE, 2 * PAGE_SIZE) < 0);
    // The mapping survived every rejected request.
    assert_eq!(sched::munmap(&mut core, PAGE_SIZE, PAGE_SIZE), 0);
}

/// An unaligned length covers every page the range touches: mapping rounds
/// the end of the range up to a page boundary.
#[test]
fn mmap_rounds_len_up_to_pages() {
    let mut core = core_with_task();
    // One byte into the second page: pages 1 and 2 are both mapped.
    assert_eq!(sched::mmap(&mut core, PAGE_SIZE, PAGE_SIZE + 1, 0b111), 0);
    assert_eq!(sched::munmap(&mut core, PAGE_SIZE, 2 * PAGE_SIZE), 0);
}

/// The address-space component on its own: membership queries and the
/// fresh-state contract.
#[test]
fn memory_set_direct() {
    let mut m = MemorySet::new(42);
    assert_eq!(m.token, 42);
    assert!(!m.page_is_mapped(1));
    assert_eq!(m.mmap(0, 2 * PAGE_SIZE, 0b101), 0);
    assert!(m.page_is_mapped(0));
    assert!(m.page_is_mapped(1));
    assert!(!m.page_is_mapped(2));
    let snap = m.snapshot();
    assert_eq!(m.munmap(0, PAGE_SIZE), 0);
    assert!(!m.page_is_mapped(0));
    assert!(m.page_is_mapped(1));
    // The snapshot is an independent copy.
    assert!(snap.page_is_mapped(0));
}
