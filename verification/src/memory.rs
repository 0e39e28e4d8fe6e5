//! Address-space component of a task.
//!
//! The scheduler delegates `mmap` / `munmap` requests to the current task's
//! address space. The model keeps what those requests read and write as plain
//! values: the set of mapped virtual page numbers and the address-space token.
//! A request succeeds exactly when its range is page-aligned, non-empty, does
//! not overflow the address width, carries valid permission bits (for `mmap`),
//! and does not collide with the existing mappings (every page fresh for
//! `mmap`, every page mapped for `munmap`). Failure reports a negative status
//! and leaves the mappings untouched.

use crate::config::PAGE_SIZE;
use vstd::prelude::*;

verus! {

/// First virtual page number of the range starting at `start`.
pub open spec fn first_vpn(start: usize) -> int {
    start as int / PAGE_SIZE as int
}

/// One past the last virtual page number of the range `[start, start + len)`.
pub open spec fn end_vpn(start: usize, len: usize) -> int {
    if (start + len) % (PAGE_SIZE as int) == 0 {
        (start + len) / (PAGE_SIZE as int)
    } else {
        (start + len) / (PAGE_SIZE as int) + 1
    }
}

/// Valid permission bits: some of the three low bits (read, write, execute),
/// at least one of them set, and nothing above them.
pub open spec fn port_ok(port: usize) -> bool {
    0 < port <= 7
}

/// Address space of one task: its token and the set of mapped pages.
pub struct MemorySet {
    /// Identifier of this address space, handed to the hardware on switch.
    pub token: usize,
    /// Mapped virtual page numbers; holds no duplicates (see [`Self::wf`]).
    pub pages: Vec<usize>,
}

impl MemorySet {
    /// Well-formed: each mapped page is recorded once.
    pub open spec fn wf(self) -> bool {
        self.pages@.no_duplicates()
    }

    /// Whether virtual page `vpn` is mapped.
    pub open spec fn is_mapped(self, vpn: usize) -> bool {
        self.pages@.contains(vpn)
    }

    /// No page of `[lo, hi)` is mapped.
    pub open spec fn range_is_free(self, lo: int, hi: int) -> bool {
        forall|p: usize| lo <= p < hi ==> !(#[trigger] self.is_mapped(p))
    }

    /// Every page of `[lo, hi)` is mapped.
    pub open spec fn range_is_mapped(self, lo: int, hi: int) -> bool {
        forall|p: usize| lo <= p < hi ==> #[trigger] self.is_mapped(p)
    }

    /// Exactly when an `mmap(start, len, port)` request succeeds.
    pub open spec fn mmap_ok(self, start: usize, len: usize, port: usize) -> bool {
        &&& start % PAGE_SIZE == 0
        &&& len > 0
        &&& start + len <= usize::MAX
        &&& port_ok(port)
        &&& self.range_is_free(first_vpn(start), end_vpn(start, len))
    }

    /// Exactly when a `munmap(start, len)` request succeeds.
    pub open spec fn munmap_ok(self, start: usize, len: usize) -> bool {
        &&& start % PAGE_SIZE == 0
        &&& len > 0
        &&& start + len <= usize::MAX
        &&& self.range_is_mapped(first_vpn(start), end_vpn(start, len))
    }

    /// A fresh, empty address space with the given token.
    pub fn new(token: usize) -> (m: MemorySet)
        ensures
            m.token == token,
            m.pages@ == Seq::<usize>::empty(),
            m.wf(),
            forall|v: usize| !(#[trigger] m.is_mapped(v)),
    {
        MemorySet { token, pages: Vec::new() }
    }

    /// A copy of this address space holding the same token and mappings.
    pub fn snapshot(&self) -> (m: MemorySet)
        ensures
            m.token == self.token,
            m.pages@ == self.pages@,
    {
        let mut pages: Vec<usize> = Vec::new();
        let mut i: usize = 0;
        while i < self.pages.len()
            invariant
                i <= self.pages@.len(),
                pages@ == self.pages@.subrange(0, i as int),
            decreases self.pages@.len() - i,
        {
            pages.push(self.pages[i]);
            i = i + 1;
        }
        proof {
            assert(pages@ =~= self.pages@);
        }
        MemorySet { token: self.token, pages }
    }

    /// Whether page `vpn` is currently mapped.
    pub fn page_is_mapped(&self, vpn: usize) -> (b: bool)
        ensures
            b == self.is_mapped(vpn),
    {
        let mut i: usize = 0;
        while i < self.pages.len()
            invariant
                i <= self.pages@.len(),
                forall|j: int| 0 <= j < i ==> self.pages@[j] != vpn,
            decreases self.pages@.len() - i,
        {
            if self.pages[i] == vpn {
                return true;
            }
            i = i + 1;
        }
        false
    }

    /// Map the pages covering `[start, start + len)` with permission bits
    /// `port`. Returns 0 and adds exactly the pages of the range when the
    /// request is valid; returns -1 and changes nothing when it is not
    /// (misaligned or empty range, overflow, bad permission bits, or overlap
    /// with an existing mapping).
    #[verifier::loop_isolation(false)]
    pub fn mmap(&mut self, start: usize, len: usize, port: usize) -> (r: isize)
        requires
            old(self).wf(),
        ensures
            final(self).wf(),
            final(self).token == old(self).token,
            r == 0 || r == -1,
            (r == 0) <==> old(self).mmap_ok(start, len, port),
            r == -1 ==> final(self).pages@ == old(self).pages@,
            r == 0 ==> forall|v: usize|
                #![trigger final(self).is_mapped(v)]
                #![trigger old(self).is_mapped(v)]
                final(self).is_mapped(v) <==> (old(self).is_mapped(v) || first_vpn(start) <= v
                    < end_vpn(start, len)),
    {
        if start % PAGE_SIZE != 0 || len == 0 || port == 0 || port > 7 {
            return -1;
        }
        if len > usize::MAX - start {
            return -1;
        }
        let first: usize = start / PAGE_SIZE;
        let end_addr: usize = start + len;
        let end: usize = if end_addr % PAGE_SIZE == 0 {
            end_addr / PAGE_SIZE
        } else {
            end_addr / PAGE_SIZE + 1
        };
        let mut p: usize = first;
        while p < end
            invariant
                first <= p <= end,
                forall|q: usize| first <= q < p ==> !(#[trigger] self.is_mapped(q)),
            decreases end - p,
        {
            if self.page_is_mapped(p) {
                return -1;
            }
            p = p + 1;
        }
        let mut p: usize = first;
        while p < end
            invariant
                first <= p <= end,
                self.token == old(self).token,
                self.wf(),
                forall|v: usize|
                    #![trigger self.is_mapped(v)]
                    #![trigger old(self).is_mapped(v)]
                    self.is_mapped(v) <==> (old(self).is_mapped(v) || first <= v < p),
            decreases end - p,
        {
            let ghost prev = *self;
            self.pages.push(p);
            proof {
                assert forall|v: usize| self.is_mapped(v) <==> (prev.is_mapped(v) || v == p) by {
                    lemma_push_contains(prev.pages@, p, v);
                }
                assert(!prev.is_mapped(p));
                assert forall|i: int, j: int|
                    0 <= i < self.pages@.len() && 0 <= j < self.pages@.len() && i
                        != j implies self.pages@[i] != self.pages@[j] by {
                    if i < prev.pages@.len() && j < prev.pages@.len() {
                        assert(prev.pages@[i] == self.pages@[i]);
                        assert(prev.pages@[j] == self.pages@[j]);
                    } else if i < prev.pages@.len() {
                        assert(self.pages@[j] == p);
                        if self.pages@[i] == p {
                            assert(prev.pages@.contains(p));
                        }
                    } else {
                        assert(self.pages@[i] == p);
                        if self.pages@[j] == p {
                            assert(prev.pages@.contains(p));
                        }
                    }
                }
            }
            p = p + 1;
        }
        0
    }

    /// Unmap the pages covering `[start, start + len)`. Returns 0 and removes
    /// exactly the pages of the range when the request is valid; returns -1
    /// and changes nothing when it is not (misaligned or empty range,
    /// overflow, or a page of the range not currently mapped).
    #[verifier::loop_isolation(false)]
    pub fn munmap(&mut self, start: usize, len: usize) -> (r: isize)
        requires
            old(self).wf(),
        ensures
            final(self).wf(),
            final(self).token == old(self).token,
            r == 0 || r == -1,
            (r == 0) <==> old(self).munmap_ok(start, len),
            r == -1 ==> final(self).pages@ == old(self).pages@,
            r == 0 ==> forall|v: usize|
                #![trigger final(self).is_mapped(v)]
                #![trigger old(self).is_mapped(v)]
                final(self).is_mapped(v) <==> (old(self).is_mapped(v) && !(first_vpn(start) <= v
                    < end_vpn(start, len))),
    {
        if start % PAGE_SIZE != 0 || len == 0 {
            return -1;
        }
        if len > usize::MAX - start {
            return -1;
        }
        let first: usize = start / PAGE_SIZE;
        let end_addr: usize = start + len;
        let end: usize = if end_addr % PAGE_SIZE == 0 {
            end_addr / PAGE_SIZE
        } else {
            end_addr / PAGE_SIZE + 1
        };
        let mut p: usize = first;
        while p < end
            invariant
                first <= p <= end,
                forall|q: usize| first <= q < p ==> #[trigger] self.is_mapped(q),
            decreases end - p,
        {
            if !self.page_is_mapped(p) {
                return -1;
            }
            p = p + 1;
        }
        let mut p: usize = first;
        while p < end
            invariant
                first <= p <= end,
                self.token == old(self).token,
                self.wf(),
                forall|v: usize|
                    #![trigger self.is_mapped(v)]
                    #![trigger old(self).is_mapped(v)]
                    self.is_mapped(v) <==> (old(self).is_mapped(v) && !(first <= v < p)),
            decreases end - p,
        {
            self.remove_page(p);
            p = p + 1;
        }
        0
    }

    /// Remove the one record of page `vpn` from the mappings.
    #[verifier::loop_isolation(false)]
    fn remove_page(&mut self, vpn: usize)
        requires
            old(self).wf(),
            old(self).is_mapped(vpn),
        ensures
            final(self).wf(),
            final(self).token == old(self).token,
            forall|v: usize|
                #![trigger final(self).is_mapped(v)]
                final(self).is_mapped(v) <==> (old(self).is_mapped(v) && v != vpn),
    {
        let mut i: usize = 0;
        while i < self.pages.len()
            invariant
                *self == *old(self),
                i <= self.pages@.len(),
                forall|j: int| 0 <= j < i ==> self.pages@[j] != vpn,
            decreases self.pages@.len() - i,
        {
            if self.pages[i] == vpn {
                let ghost prev = *self;
                let ghost idx = i as int;
                self.pages.remove(i);
                proof {
                    prev.pages@.remove_ensures(idx);
                    assert forall|v: usize|
                        self.is_mapped(v) <==> (prev.is_mapped(v) && v != vpn) by {
                        lemma_remove_contains(prev.pages@, idx, v);
                    }
                    assert forall|a: int, b: int|
                        0 <= a < self.pages@.len() && 0 <= b < self.pages@.len() && a
                            != b implies self.pages@[a] != self.pages@[b] by {
                        let a0: int = if a < idx { a } else { a + 1 };
                        let b0: int = if b < idx { b } else { b + 1 };
                        assert(self.pages@[a] == prev.pages@[a0]);
                        assert(self.pages@[b] == prev.pages@[b0]);
                    }
                }
                return;
            }
            i = i + 1;
        }
        // The page is mapped, so the scan cannot fall off the end.
        proof {
            let j = choose|j: int|
                0 <= j < self.pages@.len() && self.pages@[j] == vpn;
            assert(false);
        }
    }
}

/// Membership in a sequence extended by one element.
proof fn lemma_push_contains(s: Seq<usize>, x: usize, v: usize)
    ensures
        s.push(x).contains(v) <==> (s.contains(v) || v == x),
{
    let t = s.push(x);
    if t.contains(v) {
        let i = choose|i: int| 0 <= i < t.len() && t[i] == v;
        if i < s.len() {
            assert(s[i] == v);
        }
    }
    if s.contains(v) {
        let i = choose|i: int| 0 <= i < s.len() && s[i] == v;
        assert(t[i] == v);
    }
    if v == x {
        assert(t[s.len() as int] == v);
    }
}

/// Membership in a duplicate-free sequence with the element at `i` removed.
proof fn lemma_remove_contains(s: Seq<usize>, i: int, v: usize)
    requires
        0 <= i < s.len(),
        s.no_duplicates(),
    ensures
        s.remove(i).contains(v) <==> (s.contains(v) && v != s[i]),
{
    let t = s.remove(i);
    s.remove_ensures(i);
    if t.contains(v) {
        let k = choose|k: int| 0 <= k < t.len() && t[k] == v;
        if k < i {
            assert(s[k] == v);
        } else {
            assert(s[k + 1] == v);
        }
    }
    if s.contains(v) && v != s[i] {
        let k = choose|k: int| 0 <= k < s.len() && s[k] == v;
        if k < i {
            assert(t[k] == v);
        } else {
            assert(t[k - 1] == v);
        }
    }
}

} // verus!
