//! The boot-phase frame allocator.
//!
//! It hands out page-table memory for the kernel out of one pre-reserved,
//! firmware-allocated block of frames, zeroed before hand-off, so that
//! mapping pages for the kernel never invalidates the firmware memory map by
//! allocating new entries. It is purely monotonic: a cursor only ever
//! advances, nothing is ever freed before the kernel is live, and running
//! out of frames is an unrecoverable boot error.

use vstd::prelude::*;
use crate::error::BootError;
use crate::memory::{Frame, MAX_FRAME_NUMBER};
use core::ops::Range;

verus! {

/// The allocator used during boot to allocate memory for the kernel page
/// tables, over a block of frames pre-reserved through the firmware.
pub struct BootFrameAllocator {
    /// The first frame that cannot be allocated by this allocator.
    pub end_frame: Frame,
    /// The next frame available for allocation. When it reaches
    /// `end_frame`, the allocator is exhausted.
    pub next_frame: Frame,
}

/// One successful `allocate_n` step: `r` is the block cut from `pre`'s
/// cursor and `post` is `pre` with the cursor advanced past it.
pub open spec fn boot_alloc_step(
    pre: BootFrameAllocator,
    post: BootFrameAllocator,
    n: u64,
    r: Range<Frame>,
) -> bool {
    &&& pre.wf()
    &&& pre.next_frame.number + n <= pre.end_frame.number
    &&& r.start == pre.next_frame
    &&& r.end.number == pre.next_frame.number + n
    &&& post.end_frame == pre.end_frame
    &&& post.next_frame == r.end
}

impl BootFrameAllocator {
    /// Well-formedness: the cursor never stands past the end of the block.
    pub open spec fn wf(self) -> bool {
        &&& self.next_frame.number <= self.end_frame.number
        &&& self.end_frame.wf()
    }

    /// Builds the allocator over a pre-reserved block of `num_frames`
    /// frames starting at `start_frame`. Reserving the block from the
    /// firmware, and zeroing it so the page tables start with everything
    /// unmapped, happen at the boot-services edge before this is called.
    pub fn new(start_frame: Frame, num_frames: u64) -> (r: BootFrameAllocator)
        requires
            start_frame.number + num_frames < MAX_FRAME_NUMBER,
        ensures
            r.next_frame == start_frame,
            r.end_frame.number == start_frame.number + num_frames,
            r.wf(),
    {
        BootFrameAllocator {
            end_frame: Frame { number: start_frame.number + num_frames },
            next_frame: start_frame,
        }
    }

    /// Cuts the next `n` frames off the block and advances the cursor past
    /// them. Succeeds exactly when `n` frames remain; exhaustion is fatal,
    /// since boot cannot proceed without page-table memory.
    pub fn allocate_n(&mut self, n: u64) -> (r: Result<Range<Frame>, BootError>)
        requires
            old(self).wf(),
        ensures
            final(self).wf(),
            r is Ok <==> old(self).next_frame.number + n <= old(self).end_frame.number,
            r matches Ok(range) ==> boot_alloc_step(*old(self), *final(self), n, range),
            r matches Err(e) ==> e == BootError::FrameExhaustion && *final(self) == *old(self),
    {
        if n > self.end_frame.number - self.next_frame.number {
            return Err(BootError::FrameExhaustion);
        }
        let frame = self.next_frame;
        self.next_frame = Frame { number: frame.number + n };
        Ok(frame..self.next_frame)
    }

    /// Nothing is ever freed during boot: a `free` signals a logic error
    /// and surfaces as a fatal condition rather than being silently
    /// ignored.
    pub fn free(&self, _frame: Frame) -> (r: Result<(), BootError>)
        ensures
            r matches Err(e) && e == BootError::FreeInBootPhase,
    {
        Err(BootError::FreeInBootPhase)
    }
}

/// Boot allocator monotonicity: two successive successful allocations
/// return adjacent, non-overlapping blocks — the second begins exactly
/// where the first ended, so over any run of calls the returned ranges are
/// increasing and pairwise disjoint, and together they exhaust the cursor's
/// advance.
pub proof fn lemma_boot_allocator_monotonic(
    a0: BootFrameAllocator,
    a1: BootFrameAllocator,
    a2: BootFrameAllocator,
    n1: u64,
    n2: u64,
    r1: Range<Frame>,
    r2: Range<Frame>,
)
    requires
        boot_alloc_step(a0, a1, n1, r1),
        boot_alloc_step(a1, a2, n2, r2),
    ensures
        r2.start.number == r1.end.number,
        r1.start.number <= r1.end.number,
        r2.start.number <= r2.end.number,
        r1.end.number <= a0.end_frame.number,
        r2.end.number <= a0.end_frame.number,
{
}

} // verus!
