//! The error taxonomy of the kernel core.
//!
//! Internal operations return explicit error values up to the trap boundary;
//! the trap boundary is the only place allowed to convert an error into a
//! user-visible return code or into a task-kill decision. Nothing below the
//! trap boundary silently swallows an error.

use vstd::prelude::*;

verus! {

/// Unrecoverable boot-phase conditions. The machine cannot come up past one
/// of these; the caller halts with a diagnostic.
#[derive(Clone, Copy, Debug, PartialEq, Eq, Structural)]
pub enum BootError {
    /// The boot-phase frame allocator ran out of its pre-reserved block.
    FrameExhaustion,
    /// A frame was handed back during the boot phase, where nothing is ever
    /// freed; this signals a logic error rather than a recoverable state.
    FreeInBootPhase,
    /// The bootloader hand-off block does not carry the expected magic
    /// number.
    BadHandoffMagic,
    /// The firmware reports an interrupt model the kernel cannot drive.
    UnsupportedInterruptModel,
}

/// Recoverable failures of the kernel-phase frame allocator.
#[derive(Clone, Copy, Debug, PartialEq, Eq, Structural)]
pub enum FrameAllocError {
    /// No run of contiguous free frames long enough for the request exists.
    /// The caller may retry smaller, free memory, or fail the requesting
    /// operation; this is never implicitly fatal.
    AllocationFailure,
    /// A `free` named a frame outside the set the allocator ever handed out.
    InvalidFree,
}

/// Recoverable failures of address-space operations.
#[derive(Clone, Copy, Debug, PartialEq, Eq, Structural)]
pub enum MappingError {
    /// Part of the requested virtual range is already mapped.
    AlreadyMapped,
    /// The requested virtual range is not a currently mapped range.
    NotMapped,
    /// The requested virtual range runs outside the space available to user
    /// mappings.
    OutOfVirtualSpace,
}

/// Failure to resolve a capability handle: the slot is unoccupied or the
/// generation is stale. Always recoverable; surfaced to the caller as an
/// error code.
#[derive(Clone, Copy, Debug, PartialEq, Eq, Structural)]
pub enum HandleError {
    InvalidHandle,
}

} // verus!
