//! The kernel-phase physical memory manager.
//!
//! It owns the usable physical frames reported by the memory map reader and
//! supports both allocation of physically contiguous runs and release of
//! single frames. It never hands out a frame currently accounted as
//! allocated, and never accepts a `free` of a frame outside the set it ever
//! handed out.
//!
//! Hand-off contract with the boot phase: regions the boot phase already
//! owns — the kernel image, the page tables built for the kernel, and the
//! boot-information block — are tagged with their own region types in the
//! memory map and are *not* usable, so this manager never re-scans live
//! page-table frames as free.
//!
//! The manager is reachable from several CPUs and from interrupt context;
//! the caller guards it with a mutual-exclusion wrapper and never holds
//! that lock across a task switch.

use vstd::prelude::*;
use vstd::set_lib::set_int_range;
use crate::error::FrameAllocError;
use crate::memory::{Frame, MAX_FRAME_NUMBER};
use crate::memory::FRAME_SIZE;
use crate::memory_map::{MemoryDescriptor, MemoryMap};
use core::ops::Range;

verus! {

/// What the manager knows of one tracked frame.
#[derive(Clone, Copy, Debug, PartialEq, Eq, Structural)]
pub enum FrameState {
    /// Usable and not handed out.
    Free,
    /// Handed out by `allocate_n` and not yet freed.
    Allocated,
    /// Never available: firmware-reserved, ACPI-reserved, or owned by the
    /// boot phase (kernel image, page tables, boot information).
    Reserved,
}

/// The kernel-phase frame allocator: per-frame bookkeeping over the tracked
/// span of physical memory.
pub struct PhysicalMemoryManager {
    /// The number of the first tracked frame.
    pub base: u64,
    /// One state per tracked frame; entry `k` describes frame `base + k`.
    pub states: Vec<FrameState>,
}

impl PhysicalMemoryManager {
    /// Well-formedness: every tracked frame has a representable address.
    pub open spec fn wf(self) -> bool {
        self.base + self.states@.len() <= MAX_FRAME_NUMBER
    }

    /// Whether frame number `i` lies in the tracked span.
    pub open spec fn tracks(self, i: int) -> bool {
        self.base <= i < self.base + self.states@.len()
    }

    /// The state recorded for tracked frame number `i`.
    pub open spec fn state_of(self, i: int) -> FrameState {
        self.states@[i - self.base]
    }

    /// The set of frame numbers currently accounted as allocated.
    pub open spec fn allocated(self) -> Set<int> {
        Set::new(|i: int| self.tracks(i) && self.state_of(i) is Allocated)
    }

    /// Frames `start .. start + n` are all tracked and free.
    pub open spec fn free_run(self, start: int, n: int) -> bool {
        &&& self.base <= start
        &&& start + n <= self.base + self.states@.len()
        &&& forall|i: int| start <= i < start + n ==> self.state_of(i) is Free
    }

    /// Builds a manager tracking `frame_count` frames from `base` on, all
    /// reserved until a memory-map region marks them usable.
    pub fn new(base: Frame, frame_count: usize) -> (r: PhysicalMemoryManager)
        requires
            base.number + frame_count <= MAX_FRAME_NUMBER,
        ensures
            r.wf(),
            r.base == base.number,
            r.states@.len() == frame_count,
            forall|i: int| r.tracks(i) ==> r.state_of(i) is Reserved,
            r.allocated() == Set::<int>::empty(),
    {
        let mut states: Vec<FrameState> = Vec::new();
        let mut k: usize = 0;
        while k < frame_count
            invariant
                k <= frame_count,
                states@.len() == k,
                forall|j: int| 0 <= j < k ==> states@[j] is Reserved,
            decreases frame_count - k,
        {
            states.push(FrameState::Reserved);
            k = k + 1;
        }
        let r = PhysicalMemoryManager { base: base.number, states };
        proof {
            assert(r.allocated() =~= Set::<int>::empty());
        }
        r
    }

    /// Whether `descriptor` covers frame number `i`: the descriptor's
    /// region, measured in whole frames from the frame containing its
    /// physical start, reaches `i`.
    pub open spec fn descriptor_covers(descriptor: MemoryDescriptor, i: int) -> bool {
        let first = descriptor.physical_start as int / FRAME_SIZE as int;
        first <= i < first + descriptor.number_of_pages
    }

    /// Marks the frames of one usable memory-map region free. Regions of
    /// any other type leave the manager untouched, as do frames outside
    /// the tracked span. Only reserved frames become free: a frame already
    /// handed out is never reopened by a region scan.
    pub fn add_region(&mut self, descriptor: &MemoryDescriptor)
        requires
            old(self).wf(),
        ensures
            final(self).wf(),
            final(self).base == old(self).base,
            final(self).states@.len() == old(self).states@.len(),
            forall|i: int| #[trigger] old(self).tracks(i) ==> final(self).state_of(i) == (
                if descriptor.memory_type.spec_is_usable() && Self::descriptor_covers(
                    *descriptor,
                    i,
                ) && old(self).state_of(i) is Reserved {
                    FrameState::Free
                } else {
                    old(self).state_of(i)
                }
            ),
    {
        if !descriptor.memory_type.is_usable() {
            return ;
        }
        let first: u64 = descriptor.physical_start / FRAME_SIZE;
        let count: u64 = descriptor.number_of_pages;
        let len: usize = self.states.len();
        // Walk the intersection of the region's frames with the tracked span.
        let mut f: u64 = if first > self.base {
            first
        } else {
            self.base
        };
        let ghost pre = *self;
        while f < self.base + len as u64 && f - first < count
            invariant
                self.base == pre.base,
                self.states@.len() == pre.states@.len(),
                len == self.states@.len(),
                pre.wf(),
                descriptor.memory_type.spec_is_usable(),
                first == descriptor.physical_start / FRAME_SIZE,
                count == descriptor.number_of_pages,
                f >= first,
                f >= self.base,
                forall|i: int| #[trigger] pre.tracks(i) ==> self.state_of(i) == (
                    if i < f && Self::descriptor_covers(*descriptor, i) && pre.state_of(i)
                        is Reserved {
                        FrameState::Free
                    } else {
                        pre.state_of(i)
                    }
                ),
            decreases self.base + len as u64 - f,
        {
            let ghost prev = *self;
            let k: usize = (f - self.base) as usize;
            let reserved = match self.states[k] {
                FrameState::Reserved => true,
                _ => false,
            };
            if reserved {
                self.states.set(k, FrameState::Free);
            }
            proof {
                assert forall|i: int| pre.tracks(i) implies self.state_of(i) == (
                    if i < f + 1 && Self::descriptor_covers(*descriptor, i) && pre.state_of(i)
                        is Reserved {
                        FrameState::Free
                    } else {
                        pre.state_of(i)
                    }
                ) by {
                    assert(prev.state_of(i) == (
                        if i < f && Self::descriptor_covers(*descriptor, i) && pre.state_of(i)
                            is Reserved {
                            FrameState::Free
                        } else {
                            pre.state_of(i)
                        }
                    ));
                    if i != f as int {
                        assert(self.state_of(i) == prev.state_of(i));
                    }
                }
            }
            f = f + 1;
        }
        proof {
            assert forall|i: int| pre.tracks(i) implies self.state_of(i) == (
                if descriptor.memory_type.spec_is_usable() && Self::descriptor_covers(
                    *descriptor,
                    i,
                ) && pre.state_of(i) is Reserved {
                    FrameState::Free
                } else {
                    pre.state_of(i)
                }
            ) by {
                assert(self.state_of(i) == (
                    if i < f && Self::descriptor_covers(*descriptor, i) && pre.state_of(i)
                        is Reserved {
                        FrameState::Free
                    } else {
                        pre.state_of(i)
                    }
                ));
            }
        }
    }

    /// Builds the manager over the usable regions of the memory map: a
    /// tracked frame is free exactly when some usable region of the map
    /// covers it, and reserved otherwise.
    pub fn from_memory_map(map: &MemoryMap, base: Frame, frame_count: usize) -> (r:
        PhysicalMemoryManager)
        requires
            map.wf(),
            base.number + frame_count <= MAX_FRAME_NUMBER,
        ensures
            r.wf(),
            r.base == base.number,
            r.states@.len() == frame_count,
            forall|i: int| #[trigger] r.tracks(i) ==> (r.state_of(i) is Free <==> exists|d: int|
                0 <= d < map.spec_num_entries() && map.spec_entry(d).memory_type.spec_is_usable()
                    && Self::descriptor_covers(map.spec_entry(d), i)),
            r.allocated() == Set::<int>::empty(),
            forall|i: int| #[trigger] r.tracks(i) ==> !(r.state_of(i) is Allocated),
    {
        let mut manager = PhysicalMemoryManager::new(base, frame_count);
        let entries = map.num_entries();
        let mut d: usize = 0;
        while d < entries
            invariant
                map.wf(),
                d <= entries,
                entries == map.spec_num_entries(),
                manager.wf(),
                manager.base == base.number,
                manager.states@.len() == frame_count,
                forall|i: int| #[trigger] manager.tracks(i) ==> !(manager.state_of(i)
                    is Allocated),
                forall|i: int| #[trigger] manager.tracks(i) ==> (manager.state_of(i) is Free
                    <==> exists|
                    e: int,
                |
                    0 <= e < d && map.spec_entry(e).memory_type.spec_is_usable()
                        && Self::descriptor_covers(map.spec_entry(e), i)),
            decreases entries - d,
        {
            let descriptor = match map.index(d) {
                Ok(descriptor) => descriptor,
                // Unreachable: `d` is below the entry count.
                Err(_) => vstd::pervasive::unreached(),
            };
            let ghost before = manager;
            manager.add_region(&descriptor);
            proof {
                assert forall|i: int| manager.tracks(i) implies !(manager.state_of(i)
                    is Allocated) by {
                    assert(before.tracks(i));
                    assert(!(before.state_of(i) is Allocated));
                }
                assert forall|i: int|
                    manager.tracks(i) && manager.state_of(i) is Free implies exists|e: int|
                    0 <= e < d + 1 && map.spec_entry(e).memory_type.spec_is_usable()
                        && Self::descriptor_covers(map.spec_entry(e), i) by {
                    assert(before.tracks(i));
                    if before.state_of(i) is Free {
                        let e = choose|e: int|
                            0 <= e < d && map.spec_entry(e).memory_type.spec_is_usable()
                                && Self::descriptor_covers(map.spec_entry(e), i);
                        assert(0 <= e < d + 1 && map.spec_entry(e).memory_type.spec_is_usable()
                            && Self::descriptor_covers(map.spec_entry(e), i));
                    } else {
                        assert(map.spec_entry(d as int).memory_type.spec_is_usable()
                            && Self::descriptor_covers(map.spec_entry(d as int), i));
                        assert(0 <= (d as int) < d + 1);
                    }
                }
                assert forall|i: int|
                    manager.tracks(i) && (exists|e: int|
                        0 <= e < d + 1 && map.spec_entry(e).memory_type.spec_is_usable()
                            && Self::descriptor_covers(
                            map.spec_entry(e),
                            i,
                        )) implies manager.state_of(i) is Free by {
                    assert(before.tracks(i));
                    let e = choose|e: int|
                        0 <= e < d + 1 && map.spec_entry(e).memory_type.spec_is_usable()
                            && Self::descriptor_covers(map.spec_entry(e), i);
                    if e < d {
                        assert(before.state_of(i) is Free);
                    } else {
                        assert(map.spec_entry(e) == descriptor);
                        assert(!(before.state_of(i) is Allocated));
                    }
                }
            }
            d = d + 1;
        }
        proof {
            assert(manager.allocated() =~= Set::<int>::empty());
        }
        manager
    }

    /// Allocates `n` physically contiguous frames, first fit. Succeeds
    /// exactly when some run of `n` contiguous free frames exists, and
    /// never returns a frame currently accounted as allocated. Failure is
    /// recoverable: the manager is left untouched.
    pub fn allocate_n(&mut self, n: u64) -> (r: Result<Range<Frame>, FrameAllocError>)
        requires
            old(self).wf(),
        ensures
            final(self).wf(),
            final(self).base == old(self).base,
            final(self).states@.len() == old(self).states@.len(),
            r is Ok <==> exists|s: int| old(self).free_run(s, n as int),
            r matches Ok(range) ==> alloc_step(*old(self), *final(self), n, range),
            r matches Err(e) ==> e == FrameAllocError::AllocationFailure && *final(self) == *old(
                self,
            ),
    {
        let len: usize = self.states.len();
        if n == 0 {
            let frame = Frame { number: self.base };
            proof {
                assert(old(self).free_run(old(self).base as int, 0));
                assert(self.allocated() =~= self.allocated().union(
                    set_int_range(self.base as int, self.base as int),
                ));
            }
            return Ok(frame..frame);
        }
        if n > len as u64 {
            proof {
                assert forall|s: int| !(#[trigger] old(self).free_run(s, n as int)) by {}
            }
            return Err(FrameAllocError::AllocationFailure);
        }
        let n_us: usize = n as usize;
        let ghost pre = *self;
        let mut run_start: usize = 0;
        let mut i: usize = 0;
        while i < len
            invariant
                *self == pre,
                pre == *old(self),
                pre.wf(),
                len == pre.states@.len(),
                n_us == n,
                1 <= n_us <= len,
                run_start <= i <= len,
                i - run_start < n_us,
                forall|j: int|
                    pre.base + run_start <= j < pre.base + i ==> (#[trigger] pre.state_of(j))
                        is Free,
                forall|s: int|
                    s < pre.base + run_start ==> !(#[trigger] pre.free_run(s, n as int)),
            decreases len - i,
        {
            let is_free = match self.states[i] {
                FrameState::Free => true,
                _ => false,
            };
            if is_free {
                if i + 1 - run_start == n_us {
                    let start_abs: u64 = self.base + run_start as u64;
                    proof {
                        assert(pre.state_of(pre.base + i) is Free);
                        assert(pre.free_run(start_abs as int, n as int));
                    }
                    let end_rel: usize = i + 1;
                    let mut k: usize = run_start;
                    while k < end_rel
                        invariant
                            pre.wf(),
                            self.base == pre.base,
                            self.states@.len() == pre.states@.len(),
                            end_rel == run_start + n_us,
                            run_start <= k <= end_rel <= pre.states@.len(),
                            forall|j: int|
                                run_start <= j < k ==> self.states@[j] is Allocated,
                            forall|j: int|
                                0 <= j < pre.states@.len() && !(run_start <= j < k)
                                    ==> self.states@[j] == pre.states@[j],
                        decreases end_rel - k,
                    {
                        self.states.set(k, FrameState::Allocated);
                        k = k + 1;
                    }
                    proof {
                        assert(self.allocated() =~= pre.allocated().union(
                            set_int_range(start_abs as int, start_abs as int + n),
                        ));
                        assert forall|j: int|
                            #[trigger] pre.tracks(j) && !(start_abs <= j < start_abs as int + n)
                                implies self.state_of(j) == pre.state_of(j) by {
                            assert(self.states@[j - pre.base] == pre.states@[j - pre.base]);
                        }
                    }
                    return Ok(Frame { number: start_abs }..Frame { number: start_abs + n });
                }
                i = i + 1;
            } else {
                proof {
                    assert forall|s: int|
                        s < pre.base + (i + 1) implies !(#[trigger] pre.free_run(
                        s,
                        n as int,
                    )) by {
                        if pre.base + run_start <= s && pre.free_run(s, n as int) {
                            let rel = s - pre.base;
                            if rel + n <= i {
                                // A whole free run would already have ended
                                // inside the current window, which is
                                // shorter than `n`.
                                assert(n <= i - rel);
                                assert(false);
                            } else {
                                assert(pre.state_of(pre.base + i) is Free);
                                assert(false);
                            }
                        }
                    }
                }
                i = i + 1;
                run_start = i;
            }
        }
        proof {
            assert forall|s: int| !(#[trigger] pre.free_run(s, n as int)) by {
                if pre.free_run(s, n as int) {
                    let rel = s - pre.base;
                    assert(0 <= rel && rel + n <= len);
                    if rel >= run_start {
                        assert(n <= len - rel);
                        assert(n <= i - run_start);
                        assert(false);
                    }
                }
            }
        }
        Err(FrameAllocError::AllocationFailure)
    }

    /// Releases one frame previously handed out by `allocate_n`. A frame
    /// outside the tracked span, a reserved frame, or a frame not
    /// currently allocated is refused as an invalid free, and the manager
    /// is left untouched.
    pub fn free(&mut self, frame: Frame) -> (r: Result<(), FrameAllocError>)
        requires
            old(self).wf(),
        ensures
            final(self).wf(),
            final(self).base == old(self).base,
            final(self).states@.len() == old(self).states@.len(),
            r is Ok <==> old(self).tracks(frame.number as int) && old(self).state_of(
                frame.number as int,
            ) is Allocated,
            r is Ok ==> {
                &&& final(self).state_of(frame.number as int) is Free
                &&& final(self).allocated() == old(self).allocated().remove(frame.number as int)
                &&& forall|i: int|
                    #[trigger] old(self).tracks(i) && i != frame.number ==> final(self).state_of(
                        i,
                    ) == old(self).state_of(i)
            },
            r matches Err(e) ==> e == FrameAllocError::InvalidFree && *final(self) == *old(self),
    {
        if frame.number < self.base || frame.number - self.base >= self.states.len() as u64 {
            return Err(FrameAllocError::InvalidFree);
        }
        let k: usize = (frame.number - self.base) as usize;
        let allocated = match self.states[k] {
            FrameState::Allocated => true,
            _ => false,
        };
        if !allocated {
            return Err(FrameAllocError::InvalidFree);
        }
        self.states.set(k, FrameState::Free);
        proof {
            assert(self.allocated() =~= old(self).allocated().remove(frame.number as int));
        }
        Ok(())
    }
}

/// One successful `allocate_n` step: in `pre` the frames of `r` formed a
/// free run, and `post` is `pre` with exactly those frames accounted as
/// allocated.
pub open spec fn alloc_step(
    pre: PhysicalMemoryManager,
    post: PhysicalMemoryManager,
    n: u64,
    r: Range<Frame>,
) -> bool {
    &&& pre.wf()
    &&& pre.free_run(r.start.number as int, n as int)
    &&& r.end.number == r.start.number + n
    &&& post.base == pre.base
    &&& post.states@.len() == pre.states@.len()
    &&& post.allocated() == pre.allocated().union(
        set_int_range(r.start.number as int, r.end.number as int),
    )
    &&& forall|i: int|
        #[trigger] pre.tracks(i) && !(r.start.number <= i < r.end.number) ==> post.state_of(i)
            == pre.state_of(i)
}

/// Frame non-overlap: a successful allocation is disjoint from everything
/// currently allocated, so over any sequence of `allocate_n` and `free`
/// calls the set of live allocations never holds two overlapping ranges.
/// Spelled out for two consecutive allocations: the two returned ranges
/// are disjoint from each other and from what was allocated before, and
/// afterwards the allocated set is exactly the old set plus both ranges.
pub proof fn lemma_frame_non_overlap(
    m0: PhysicalMemoryManager,
    m1: PhysicalMemoryManager,
    m2: PhysicalMemoryManager,
    n1: u64,
    n2: u64,
    r1: Range<Frame>,
    r2: Range<Frame>,
)
    requires
        alloc_step(m0, m1, n1, r1),
        alloc_step(m1, m2, n2, r2),
    ensures
        set_int_range(r1.start.number as int, r1.end.number as int).disjoint(
            set_int_range(r2.start.number as int, r2.end.number as int),
        ),
        m0.allocated().disjoint(set_int_range(r1.start.number as int, r1.end.number as int)),
        m1.allocated().disjoint(set_int_range(r2.start.number as int, r2.end.number as int)),
        m2.allocated() == m0.allocated().union(
            set_int_range(r1.start.number as int, r1.end.number as int),
        ).union(set_int_range(r2.start.number as int, r2.end.number as int)),
{
    let s1 = set_int_range(r1.start.number as int, r1.end.number as int);
    let s2 = set_int_range(r2.start.number as int, r2.end.number as int);
    assert forall|x: int| s2.contains(x) implies !m1.allocated().contains(x) by {
        assert(m1.state_of(x) is Free);
    }
    assert forall|x: int| s1.contains(x) implies !m0.allocated().contains(x) by {
        assert(m0.state_of(x) is Free);
    }
    assert forall|x: int| s2.contains(x) implies !s1.contains(x) by {
        assert(!m1.allocated().contains(x));
        assert(m1.allocated() == m0.allocated().union(s1));
    }
}

} // verus!
