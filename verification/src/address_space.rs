//! Address spaces: one set of page-table structures each, mapping virtual
//! ranges to physical frames.
//!
//! An address space tracks its mapped virtual ranges so that overlap is
//! detected and refused. The kernel's own high-half mapping is present and
//! identical across every address space: it is modeled as the shared range
//! above `KERNEL_SPACE_BASE_PAGE`, which user mappings can never reach and
//! `unmap` can never remove, so the kernel is always mapped while any CPU
//! runs kernel code. An address space is guarded by the mutual-exclusion
//! lock of its object-map entry; each CPU mutates only its own active-root
//! register when activating one.

use vstd::prelude::*;
use crate::error::MappingError;
use crate::memory::{Frame, MAX_FRAME_NUMBER};
use core::ops::Range;

verus! {

/// The first page of the kernel's shared high-half mapping (the canonical
/// higher half of the virtual space).
pub const KERNEL_SPACE_BASE_PAGE: u64 = 0xFFFF_8000_0000_0;

/// One past the last page available to user mappings (the top of the
/// canonical lower half).
pub const USER_SPACE_TOP_PAGE: u64 = 0x8_0000_0000;

/// A page of virtual memory, identified by its page number (its base
/// address divided by the page size).
#[derive(Clone, Copy, Debug, PartialEq, Eq, Structural)]
pub struct Page {
    pub number: u64,
}

/// The permission bits of a mapping, consumed verbatim by the hardware MMU
/// entry format rather than computed by the kernel.
#[derive(Clone, Copy, Debug, PartialEq, Eq, Structural)]
pub struct EntryFlags {
    pub present: bool,
    pub writable: bool,
    pub no_execute: bool,
    pub user_accessible: bool,
    pub no_cache: bool,
}

/// One mapped virtual range: `num_pages` pages from `virt_start` backed by
/// the frames from `frame_start` on, under one set of permission flags.
#[derive(Clone, Copy, Debug, PartialEq, Eq, Structural)]
pub struct Mapping {
    pub virt_start: Page,
    pub num_pages: u64,
    pub frame_start: Frame,
    pub flags: EntryFlags,
}

/// Whether `m` maps page number `p`.
pub open spec fn mapping_covers(m: Mapping, p: int) -> bool {
    m.virt_start.number <= p < m.virt_start.number + m.num_pages
}

/// Whether two mappings claim a common page.
pub open spec fn mappings_overlap(a: Mapping, b: Mapping) -> bool {
    a.virt_start.number < b.virt_start.number + b.num_pages && b.virt_start.number
        < a.virt_start.number + a.num_pages
}

/// A well-formed mapping: nonempty, wholly inside the user half, and backed
/// by representable frames.
pub open spec fn mapping_wf(m: Mapping) -> bool {
    &&& 1 <= m.num_pages
    &&& m.virt_start.number + m.num_pages <= USER_SPACE_TOP_PAGE
    &&& m.frame_start.number + m.num_pages <= MAX_FRAME_NUMBER
}

/// The per-CPU paging state: which page-table root the CPU walks. Each CPU
/// owns exactly one of these and only mutates its own.
pub struct CpuState {
    pub active_root: Frame,
}

/// An address space: ownership of one page-table root, plus the record of
/// the user-half ranges mapped in it.
#[derive(Clone, Debug, PartialEq, Eq)]
pub struct AddressSpace {
    /// The physical frame holding the root of this space's page tables.
    pub page_table_root: Frame,
    /// The user-half ranges currently mapped, pairwise non-overlapping.
    pub mappings: Vec<Mapping>,
}

impl AddressSpace {
    /// Well-formedness: every recorded mapping is sound and no two of them
    /// claim a common page.
    pub open spec fn wf(self) -> bool {
        &&& forall|j: int|
            0 <= j < self.mappings@.len() ==> mapping_wf(#[trigger] self.mappings@[j])
        &&& forall|j: int, k: int|
            0 <= j < k < self.mappings@.len() ==> !mappings_overlap(
                #[trigger] self.mappings@[j],
                #[trigger] self.mappings@[k],
            )
    }

    /// Whether page number `p` is mapped in this space's user half.
    pub open spec fn page_mapped(self, p: int) -> bool {
        exists|j: int|
            0 <= j < self.mappings@.len() && mapping_covers(#[trigger] self.mappings@[j], p)
    }

    /// Builds an address space around a page-table root that already
    /// exists — for the hand-off case, where the bootloader constructed
    /// the first user task's page tables. No user-half range is recorded
    /// as mapped.
    pub fn from_page_table(page_table_root: Frame) -> (r: AddressSpace)
        ensures
            r.wf(),
            r.page_table_root == page_table_root,
            forall|p: int| !r.page_mapped(p),
            r.mappings@.len() == 0,
    {
        AddressSpace { page_table_root, mappings: Vec::new() }
    }

    /// Maps the virtual range `virt` to the frames of `frames` under
    /// `flags`. Fails with `OutOfVirtualSpace` when the range leaves the
    /// user half, and with `AlreadyMapped` when any of its pages is
    /// already mapped; on failure nothing changes. The two ranges must be
    /// the same length; an empty range is a successful no-op.
    pub fn map(&mut self, virt: Range<Page>, frames: Range<Frame>, flags: EntryFlags) -> (r:
        Result<(), MappingError>)
        requires
            old(self).wf(),
            virt.start.number <= virt.end.number,
            frames.end.number - frames.start.number == virt.end.number - virt.start.number,
            frames.end.number >= frames.start.number,
            frames.end.number <= MAX_FRAME_NUMBER,
        ensures
            final(self).wf(),
            final(self).page_table_root == old(self).page_table_root,
            r is Ok <==> (virt.end.number <= USER_SPACE_TOP_PAGE && forall|p: int|
                virt.start.number <= p < virt.end.number ==> !old(self).page_mapped(p)),
            r matches Err(e) ==> *final(self) == *old(self) && (e == MappingError::OutOfVirtualSpace
                <==> virt.end.number > USER_SPACE_TOP_PAGE) && (e == MappingError::AlreadyMapped
                <==> virt.end.number <= USER_SPACE_TOP_PAGE),
            r is Ok ==> forall|p: int| final(self).page_mapped(p) <==> (old(self).page_mapped(p)
                || virt.start.number <= p < virt.end.number),
            r is Ok && virt.start.number < virt.end.number ==> final(self).mappings@ == old(
                self,
            ).mappings@.push(
                (Mapping {
                    virt_start: virt.start,
                    num_pages: (virt.end.number - virt.start.number) as u64,
                    frame_start: frames.start,
                    flags,
                }),
            ),
            r is Ok && virt.start.number == virt.end.number ==> *final(self) == *old(self),
    {
        let num_pages: u64 = virt.end.number - virt.start.number;
        if virt.end.number > USER_SPACE_TOP_PAGE {
            return Err(MappingError::OutOfVirtualSpace);
        }
        if num_pages == 0 {
            return Ok(());
        }
        let new_mapping = Mapping {
            virt_start: virt.start,
            num_pages,
            frame_start: frames.start,
            flags,
        };
        let count = self.mappings.len();
        let mut j: usize = 0;
        while j < count
            invariant
                *self == *old(self),
                count == self.mappings@.len(),
                old(self).wf(),
                j <= count,
                mapping_wf(new_mapping),
                new_mapping.virt_start == virt.start,
                new_mapping.num_pages == virt.end.number - virt.start.number,
                forall|k: int|
                    0 <= k < j ==> !mappings_overlap(#[trigger] self.mappings@[k], new_mapping),
            decreases count - j,
        {
            let existing = self.mappings[j];
            let overlap = existing.virt_start.number < virt.end.number && virt.start.number
                < existing.virt_start.number + existing.num_pages;
            if overlap {
                proof {
                    let p = if existing.virt_start.number >= virt.start.number {
                        existing.virt_start.number as int
                    } else {
                        virt.start.number as int
                    };
                    assert(mapping_covers(self.mappings@[j as int], p));
                    assert(old(self).page_mapped(p));
                }
                return Err(MappingError::AlreadyMapped);
            }
            j = j + 1;
        }
        self.mappings.push(new_mapping);
        proof {
            let pre = *old(self);
            let post = *self;
            assert(post.mappings@ == pre.mappings@.push(new_mapping));
            assert forall|p: int|
                virt.start.number <= p < virt.end.number implies !pre.page_mapped(p) by {
                if pre.page_mapped(p) {
                    let k = choose|k: int|
                        0 <= k < pre.mappings@.len() && mapping_covers(
                            #[trigger] pre.mappings@[k],
                            p,
                        );
                    assert(mappings_overlap(pre.mappings@[k], new_mapping));
                }
            }
            assert forall|p: int|
                post.page_mapped(p) implies (pre.page_mapped(p) || virt.start.number <= p
                < virt.end.number) by {
                let k = choose|k: int|
                    0 <= k < post.mappings@.len() && mapping_covers(
                        #[trigger] post.mappings@[k],
                        p,
                    );
                if k < pre.mappings@.len() {
                    assert(mapping_covers(pre.mappings@[k], p));
                }
            }
            assert forall|p: int|
                pre.page_mapped(p) implies post.page_mapped(p) by {
                let k = choose|k: int|
                    0 <= k < pre.mappings@.len() && mapping_covers(#[trigger] pre.mappings@[k], p);
                assert(mapping_covers(post.mappings@[k], p));
            }
            assert forall|p: int|
                virt.start.number <= p < virt.end.number implies post.page_mapped(p) by {
                let k = pre.mappings@.len() as int;
                assert(mapping_covers(post.mappings@[k], p));
            }
        }
        Ok(())
    }

    /// Unmaps the exact virtual range `virt`: the range must be one
    /// whole previously mapped range. Any other range — including one that
    /// only partially covers a mapping — fails with `NotMapped` and
    /// changes nothing.
    pub fn unmap(&mut self, virt: Range<Page>) -> (r: Result<(), MappingError>)
        requires
            old(self).wf(),
            virt.start.number <= virt.end.number,
        ensures
            final(self).wf(),
            final(self).page_table_root == old(self).page_table_root,
            r is Ok <==> exists|j: int|
                0 <= j < old(self).mappings@.len() && (#[trigger] old(self).mappings@[j]).virt_start
                    == virt.start && old(self).mappings@[j].num_pages == virt.end.number
                    - virt.start.number,
            r matches Err(e) ==> e == MappingError::NotMapped && *final(self) == *old(self),
            r is Ok ==> forall|p: int| final(self).page_mapped(p) <==> (old(self).page_mapped(p)
                && !(virt.start.number <= p < virt.end.number)),
            r is Ok ==> exists|j: int|
                {
                    &&& 0 <= j < old(self).mappings@.len()
                    &&& (#[trigger] old(self).mappings@[j]).virt_start == virt.start
                    &&& old(self).mappings@[j].num_pages == virt.end.number - virt.start.number
                    &&& final(self).mappings@ == old(self).mappings@.remove(j)
                },
    {
        let num_pages: u64 = virt.end.number - virt.start.number;
        let count = self.mappings.len();
        let mut j: usize = 0;
        while j < count
            invariant
                *self == *old(self),
                count == self.mappings@.len(),
                old(self).wf(),
                j <= count,
                num_pages == virt.end.number - virt.start.number,
                forall|k: int|
                    0 <= k < j ==> !((#[trigger] self.mappings@[k]).virt_start == virt.start
                        && self.mappings@[k].num_pages == virt.end.number - virt.start.number),
            decreases count - j,
        {
            let existing = self.mappings[j];
            if existing.virt_start.number == virt.start.number && existing.num_pages == num_pages {
                proof {
                    assert(self.mappings@[j as int].virt_start == virt.start);
                }
                let _removed = self.mappings.remove(j);
                proof {
                    let pre = *old(self);
                    let post = *self;
                    assert(post.mappings@ == pre.mappings@.remove(j as int));
                    assert forall|p: int|
                        post.page_mapped(p) implies (pre.page_mapped(p) && !(virt.start.number <= p
                        < virt.end.number)) by {
                        let k = choose|k: int|
                            0 <= k < post.mappings@.len() && mapping_covers(
                                #[trigger] post.mappings@[k],
                                p,
                            );
                        let orig = if k < j as int {
                            k
                        } else {
                            k + 1
                        };
                        assert(mapping_covers(pre.mappings@[orig], p));
                        if virt.start.number <= p < virt.end.number {
                            assert(mapping_covers(pre.mappings@[j as int], p));
                            assert(mappings_overlap(pre.mappings@[orig], pre.mappings@[j as int])
                                || orig == j as int);
                        }
                    }
                    assert forall|p: int|
                        pre.page_mapped(p) && !(virt.start.number <= p < virt.end.number)
                            implies post.page_mapped(p) by {
                        let k = choose|k: int|
                            0 <= k < pre.mappings@.len() && mapping_covers(
                                #[trigger] pre.mappings@[k],
                                p,
                            );
                        assert(k != j as int);
                        let now = if k < j as int {
                            k
                        } else {
                            k - 1
                        };
                        assert(mapping_covers(post.mappings@[now], p));
                    }
                }
                return Ok(());
            }
            j = j + 1;
        }
        Err(MappingError::NotMapped)
    }

    /// Whether no page of `virt` is currently mapped — checked before
    /// frames are committed to a new mapping.
    pub fn range_free(&self, virt: Range<Page>) -> (r: bool)
        requires
            self.wf(),
            virt.start.number <= virt.end.number,
        ensures
            r <==> forall|p: int|
                virt.start.number <= p < virt.end.number ==> !self.page_mapped(p),
    {
        if virt.start.number == virt.end.number {
            return true;
        }
        let count = self.mappings.len();
        let mut j: usize = 0;
        while j < count
            invariant
                self.wf(),
                count == self.mappings@.len(),
                j <= count,
                virt.start.number < virt.end.number,
                forall|k: int|
                    0 <= k < j ==> !((#[trigger] self.mappings@[k]).virt_start.number
                        < virt.end.number && virt.start.number < self.mappings@[k].virt_start.number
                        + self.mappings@[k].num_pages),
            decreases count - j,
        {
            let existing = self.mappings[j];
            if existing.virt_start.number < virt.end.number && virt.start.number
                < existing.virt_start.number + existing.num_pages {
                proof {
                    let p = if existing.virt_start.number >= virt.start.number {
                        existing.virt_start.number as int
                    } else {
                        virt.start.number as int
                    };
                    assert(mapping_wf(self.mappings@[j as int]));
                    assert(mapping_covers(self.mappings@[j as int], p));
                    assert(self.page_mapped(p));
                    assert(virt.start.number <= p < virt.end.number);
                }
                return false;
            }
            j = j + 1;
        }
        proof {
            assert forall|p: int|
                virt.start.number <= p < virt.end.number implies !self.page_mapped(p) by {
                if self.page_mapped(p) {
                    let k = choose|k: int|
                        0 <= k < self.mappings@.len() && mapping_covers(
                            #[trigger] self.mappings@[k],
                            p,
                        );
                }
            }
        }
        true
    }

    /// Installs this address space's page-table root as the one the
    /// current CPU walks. Each CPU mutates only its own active-root
    /// register; exactly one address space is active per CPU at any
    /// instant.
    pub fn activate(&self, cpu: &mut CpuState)
        ensures
            final(cpu).active_root == self.page_table_root,
    {
        cpu.active_root = self.page_table_root;
    }
}

/// No two mapped virtual ranges within one well-formed address space
/// overlap: a page is covered by at most one mapping.
pub proof fn lemma_mapping_unique(s: AddressSpace, p: int, j: int, k: int)
    requires
        s.wf(),
        0 <= j < s.mappings@.len(),
        0 <= k < s.mappings@.len(),
        mapping_covers(s.mappings@[j], p),
        mapping_covers(s.mappings@[k], p),
    ensures
        j == k,
{
    if j < k {
        assert(mappings_overlap(s.mappings@[j], s.mappings@[k]));
    } else if k < j {
        assert(mappings_overlap(s.mappings@[k], s.mappings@[j]));
    }
}

} // verus!
