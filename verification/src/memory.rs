//! Physical frames: the fixed-size, aligned units of physical memory that the
//! allocators hand out and the address spaces consume.

use vstd::prelude::*;

verus! {

/// The platform page size in bytes. Every frame is exactly this large and its
/// base address is a multiple of it.
pub const FRAME_SIZE: u64 = 4096;

/// Frame numbers stay below this bound so that a frame's base address
/// (`number * FRAME_SIZE`) always fits in a `u64`.
pub const MAX_FRAME_NUMBER: u64 = 0x10_0000_0000_0000;

/// A physical frame, identified by its frame number (its base address divided
/// by `FRAME_SIZE`). Frames are comparable and orderable through that number,
/// and `add(n)` yields the frame `n` units later.
#[derive(Clone, Copy, Debug, PartialEq, Eq, Structural)]
pub struct Frame {
    pub number: u64,
}

impl Frame {
    /// True when the frame's base address can be represented in a `u64`.
    pub open spec fn wf(self) -> bool {
        self.number < MAX_FRAME_NUMBER
    }

    /// The frame that contains the given physical address.
    pub fn containing(address: u64) -> (r: Frame)
        ensures
            r.number == address / FRAME_SIZE,
            r.wf(),
    {
        Frame { number: address / FRAME_SIZE }
    }

    /// The physical address of the first byte of this frame.
    pub fn start_address(self) -> (r: u64)
        requires
            self.wf(),
        ensures
            r == self.number * FRAME_SIZE,
    {
        self.number * FRAME_SIZE
    }

    /// The frame `n` units later.
    pub fn add(self, n: u64) -> (r: Frame)
        requires
            self.number + n < MAX_FRAME_NUMBER,
        ensures
            r.number == self.number + n,
            r.wf(),
    {
        Frame { number: self.number + n }
    }
}

} // verus!
