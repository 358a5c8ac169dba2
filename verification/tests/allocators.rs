use kernel_core::{
    BootError, BootFrameAllocator, Frame, FrameAllocError, FrameState, MemoryMap,
    PhysicalMemoryManager,
};

fn frame(number: u64) -> Frame {
    Frame { number }
}

#[test]
fn boot_allocator_is_monotonic() {
    // Ten frames; three, three, then five must fail with four left.
    let mut allocator = BootFrameAllocator::new(frame(0), 10);
    let first = allocator.allocate_n(3).unwrap();
    assert_eq!(first, frame(0)..frame(3));
    let second = allocator.allocate_n(3).unwrap();
    assert_eq!(second, frame(3)..frame(6));
    assert_eq!(allocator.allocate_n(5), Err(BootError::FrameExhaustion));
    // The failed call consumed nothing.
    let third = allocator.allocate_n(4).unwrap();
    assert_eq!(third, frame(6)..frame(10));
}

#[test]
fn boot_allocator_exhaustion_is_fatal_error() {
    let mut allocator = BootFrameAllocator::new(frame(100), 2);
    assert!(allocator.allocate_n(2).is_ok());
    assert_eq!(allocator.allocate_n(1), Err(BootError::FrameExhaustion));
}

#[test]
fn boot_allocator_refuses_free() {
    let allocator = BootFrameAllocator::new(frame(0), 4);
    assert_eq!(allocator.free(frame(1)), Err(BootError::FreeInBootPhase));
}

fn small_manager() -> PhysicalMemoryManager {
    // Frames 0..16 tracked; 4..12 usable, the rest reserved.
    let mut buffer = Vec::new();
    buffer.extend_from_slice(&7u32.to_le_bytes());
    buffer.extend_from_slice(&[0u8; 4]);
    buffer.extend_from_slice(&(4u64 * 4096).to_le_bytes());
    buffer.extend_from_slice(&0u64.to_le_bytes());
    buffer.extend_from_slice(&8u64.to_le_bytes());
    buffer.extend_from_slice(&0u64.to_le_bytes());
    let size = buffer.len();
    let map = MemoryMap { buffer, descriptor_size: 40, descriptor_version: 1, key: 0, size };
    PhysicalMemoryManager::from_memory_map(&map, frame(0), 16)
}

#[test]
fn map_regions_mark_only_usable_frames_free() {
    let manager = small_manager();
    assert_eq!(manager.states[3], FrameState::Reserved);
    assert_eq!(manager.states[4], FrameState::Free);
    assert_eq!(manager.states[11], FrameState::Free);
    assert_eq!(manager.states[12], FrameState::Reserved);
}

#[test]
fn allocations_never_overlap() {
    let mut manager = small_manager();
    let first = manager.allocate_n(3).unwrap();
    let second = manager.allocate_n(3).unwrap();
    let third = manager.allocate_n(2).unwrap();
    let ranges = [first.clone(), second.clone(), third.clone()];
    for (i, a) in ranges.iter().enumerate() {
        for b in ranges.iter().skip(i + 1) {
            assert!(a.end.number <= b.start.number || b.end.number <= a.start.number);
        }
    }
    // Eight usable frames in all: nothing is left.
    assert_eq!(manager.allocate_n(1), Err(FrameAllocError::AllocationFailure));
}

#[test]
fn contiguity_is_respected() {
    let mut manager = small_manager();
    let first = manager.allocate_n(2).unwrap();
    let _second = manager.allocate_n(2).unwrap();
    // Free the first two frames: four contiguous frames no longer exist
    // in one run below the second allocation.
    manager.free(first.start).unwrap();
    manager.free(Frame { number: first.start.number + 1 }).unwrap();
    assert_eq!(manager.allocate_n(5), Err(FrameAllocError::AllocationFailure));
    let again = manager.allocate_n(2).unwrap();
    assert_eq!(again, first);
}

#[test]
fn freeing_returns_frames_for_reuse() {
    let mut manager = small_manager();
    let all = manager.allocate_n(8).unwrap();
    assert_eq!(manager.allocate_n(1), Err(FrameAllocError::AllocationFailure));
    manager.free(Frame { number: all.start.number + 4 }).unwrap();
    let reused = manager.allocate_n(1).unwrap();
    assert_eq!(reused.start.number, all.start.number + 4);
}

#[test]
fn invalid_frees_are_refused() {
    let mut manager = small_manager();
    // Never allocated.
    assert_eq!(manager.free(frame(5)), Err(FrameAllocError::InvalidFree));
    // Reserved, outside the usable regions.
    assert_eq!(manager.free(frame(0)), Err(FrameAllocError::InvalidFree));
    // Outside the tracked span entirely.
    assert_eq!(manager.free(frame(1000)), Err(FrameAllocError::InvalidFree));
    // Double free.
    let range = manager.allocate_n(1).unwrap();
    manager.free(range.start).unwrap();
    assert_eq!(manager.free(range.start), Err(FrameAllocError::InvalidFree));
}

#[test]
fn zero_frame_request_succeeds_empty() {
    let mut manager = small_manager();
    let range = manager.allocate_n(0).unwrap();
    assert_eq!(range.start, range.end);
}

#[test]
fn unaligned_region_start_floors_to_its_frame() {
    // A usable region starting mid-frame counts whole frames from the
    // frame containing its start.
    let mut buffer = Vec::new();
    buffer.extend_from_slice(&7u32.to_le_bytes());
    buffer.extend_from_slice(&[0u8; 4]);
    buffer.extend_from_slice(&0x1800u64.to_le_bytes());
    buffer.extend_from_slice(&0u64.to_le_bytes());
    buffer.extend_from_slice(&2u64.to_le_bytes());
    buffer.extend_from_slice(&0u64.to_le_bytes());
    let size = buffer.len();
    let map = MemoryMap { buffer, descriptor_size: 40, descriptor_version: 1, key: 0, size };
    let manager = PhysicalMemoryManager::from_memory_map(&map, frame(0), 8);
    assert_eq!(manager.states[0], FrameState::Reserved);
    assert_eq!(manager.states[1], FrameState::Free);
    assert_eq!(manager.states[2], FrameState::Free);
    assert_eq!(manager.states[3], FrameState::Reserved);
}

#[test]
fn oversized_request_fails() {
    let mut manager = small_manager();
    assert_eq!(manager.allocate_n(9), Err(FrameAllocError::AllocationFailure));
    assert_eq!(manager.allocate_n(1000), Err(FrameAllocError::AllocationFailure));
}
