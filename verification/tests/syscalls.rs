use kernel_core::{
    handle_fault, handle_syscall, word_of_handle, AddressSpace, FaultOutcome, Frame, Handle,
    KernelObject, MemoryMap, ObjectMap, PhysicalMemoryManager, Task, TaskState,
    ERROR_ALREADY_MAPPED, ERROR_INVALID_HANDLE, ERROR_NOT_MAPPED, ERROR_NO_MEMORY,
    ERROR_OUT_OF_VIRTUAL_SPACE, ERROR_UNKNOWN_SYSCALL, SYSCALL_EXIT, SYSCALL_MAP_MEMORY,
    SYSCALL_UNMAP_MEMORY, SYSCALL_YIELD,
};

/// A map holding one address space and one running task, a frame
/// allocator with eight usable frames, and the two handles.
fn kernel_state() -> (ObjectMap, PhysicalMemoryManager, Handle, Handle) {
    let mut objects = ObjectMap::new(4);
    let space = AddressSpace::from_page_table(Frame { number: 1 });
    let space_handle = objects.insert(KernelObject::AddressSpace(space)).unwrap();
    let mut task = Task::new(space_handle, 0x4000);
    task.dispatch();
    let task_handle = objects.insert(KernelObject::Task(task)).unwrap();

    let mut buffer = Vec::new();
    buffer.extend_from_slice(&7u32.to_le_bytes());
    buffer.extend_from_slice(&[0u8; 4]);
    buffer.extend_from_slice(&0u64.to_le_bytes());
    buffer.extend_from_slice(&0u64.to_le_bytes());
    buffer.extend_from_slice(&8u64.to_le_bytes());
    buffer.extend_from_slice(&0u64.to_le_bytes());
    let size = buffer.len();
    let map = MemoryMap { buffer, descriptor_size: 40, descriptor_version: 1, key: 0, size };
    let frames = PhysicalMemoryManager::from_memory_map(&map, Frame { number: 0 }, 8);
    (objects, frames, space_handle, task_handle)
}

fn task_state(objects: &ObjectMap, handle: Handle) -> TaskState {
    match objects.get(handle).unwrap() {
        KernelObject::Task(task) => task.state,
        KernelObject::AddressSpace(_) => panic!("expected a task"),
    }
}

fn mappings_of(objects: &ObjectMap, handle: Handle) -> usize {
    match objects.get(handle).unwrap() {
        KernelObject::AddressSpace(space) => space.mappings.len(),
        KernelObject::Task(_) => panic!("expected an address space"),
    }
}

#[test]
fn unknown_syscall_returns_an_error_code() {
    let (mut objects, mut frames, space_handle, task_handle) = kernel_state();
    let r = handle_syscall(&mut objects, &mut frames, task_handle, 999, 0, 0, 0, 0, 0);
    assert_eq!(r, ERROR_UNKNOWN_SYSCALL);
    // The kernel is unaffected.
    assert_eq!(task_state(&objects, task_handle), TaskState::Running);
    assert_eq!(mappings_of(&objects, space_handle), 0);
}

#[test]
fn yield_leaves_everything_alone() {
    let (mut objects, mut frames, _space_handle, task_handle) = kernel_state();
    let r = handle_syscall(&mut objects, &mut frames, task_handle, SYSCALL_YIELD, 0, 0, 0, 0, 0);
    assert_eq!(r, 0);
    assert_eq!(task_state(&objects, task_handle), TaskState::Running);
}

#[test]
fn exit_kills_the_calling_task() {
    let (mut objects, mut frames, space_handle, task_handle) = kernel_state();
    let r = handle_syscall(&mut objects, &mut frames, task_handle, SYSCALL_EXIT, 0, 0, 0, 0, 0);
    assert_eq!(r, 0);
    assert_eq!(task_state(&objects, task_handle), TaskState::Dead);
    // The address space is still referenced and intact.
    assert!(objects.get(space_handle).is_ok());
}

#[test]
fn map_memory_maps_fresh_frames() {
    let (mut objects, mut frames, space_handle, task_handle) = kernel_state();
    let word = word_of_handle(space_handle);
    let r = handle_syscall(
        &mut objects,
        &mut frames,
        task_handle,
        SYSCALL_MAP_MEMORY,
        word,
        100,
        4,
        0b01,
        0,
    );
    assert_eq!(r, 0);
    assert_eq!(mappings_of(&objects, space_handle), 1);
    match objects.get(space_handle).unwrap() {
        KernelObject::AddressSpace(space) => {
            let mapping = space.mappings[0];
            assert_eq!(mapping.virt_start.number, 100);
            assert_eq!(mapping.num_pages, 4);
            assert!(mapping.flags.present);
            assert!(mapping.flags.writable);
            assert!(!mapping.flags.no_execute);
            assert!(mapping.flags.user_accessible);
        },
        KernelObject::Task(_) => panic!("expected an address space"),
    }
}

#[test]
fn map_memory_rejects_bad_handles() {
    let (mut objects, mut frames, _space_handle, task_handle) = kernel_state();
    let stale = word_of_handle(Handle { index: 0, generation: 99 });
    let r = handle_syscall(
        &mut objects,
        &mut frames,
        task_handle,
        SYSCALL_MAP_MEMORY,
        stale,
        100,
        4,
        0,
        0,
    );
    assert_eq!(r, ERROR_INVALID_HANDLE);
    // A task handle is the wrong kind of object.
    let wrong_kind = word_of_handle(task_handle);
    let r = handle_syscall(
        &mut objects,
        &mut frames,
        task_handle,
        SYSCALL_MAP_MEMORY,
        wrong_kind,
        100,
        4,
        0,
        0,
    );
    assert_eq!(r, ERROR_INVALID_HANDLE);
}

#[test]
fn map_memory_rejects_overlap_and_exhaustion() {
    let (mut objects, mut frames, space_handle, task_handle) = kernel_state();
    let word = word_of_handle(space_handle);
    assert_eq!(
        handle_syscall(
            &mut objects,
            &mut frames,
            task_handle,
            SYSCALL_MAP_MEMORY,
            word,
            100,
            2,
            0,
            0
        ),
        0
    );
    // Overlapping the live mapping fails before frames are committed.
    assert_eq!(
        handle_syscall(
            &mut objects,
            &mut frames,
            task_handle,
            SYSCALL_MAP_MEMORY,
            word,
            101,
            2,
            0,
            0
        ),
        ERROR_ALREADY_MAPPED
    );
    // Only six of the eight frames are left.
    assert_eq!(
        handle_syscall(
            &mut objects,
            &mut frames,
            task_handle,
            SYSCALL_MAP_MEMORY,
            word,
            200,
            7,
            0,
            0
        ),
        ERROR_NO_MEMORY
    );
}

#[test]
fn map_memory_rejects_kernel_half_ranges() {
    let (mut objects, mut frames, space_handle, task_handle) = kernel_state();
    let word = word_of_handle(space_handle);
    let top = kernel_core::USER_SPACE_TOP_PAGE;
    let r = handle_syscall(
        &mut objects,
        &mut frames,
        task_handle,
        SYSCALL_MAP_MEMORY,
        word,
        top - 1,
        2,
        0,
        0,
    );
    assert_eq!(r, ERROR_OUT_OF_VIRTUAL_SPACE);
}

#[test]
fn unmap_memory_requires_the_exact_range() {
    let (mut objects, mut frames, space_handle, task_handle) = kernel_state();
    let word = word_of_handle(space_handle);
    handle_syscall(
        &mut objects,
        &mut frames,
        task_handle,
        SYSCALL_MAP_MEMORY,
        word,
        100,
        4,
        0,
        0,
    );
    assert_eq!(
        handle_syscall(
            &mut objects,
            &mut frames,
            task_handle,
            SYSCALL_UNMAP_MEMORY,
            word,
            100,
            2,
            0,
            0
        ),
        ERROR_NOT_MAPPED
    );
    assert_eq!(
        handle_syscall(
            &mut objects,
            &mut frames,
            task_handle,
            SYSCALL_UNMAP_MEMORY,
            word,
            100,
            4,
            0,
            0
        ),
        0
    );
    assert_eq!(mappings_of(&objects, space_handle), 0);
}

#[test]
fn remap_after_unmap_succeeds() {
    let (mut objects, mut frames, space_handle, task_handle) = kernel_state();
    let word = word_of_handle(space_handle);
    assert_eq!(
        handle_syscall(
            &mut objects,
            &mut frames,
            task_handle,
            SYSCALL_MAP_MEMORY,
            word,
            100,
            2,
            0,
            0
        ),
        0
    );
    assert_eq!(
        handle_syscall(
            &mut objects,
            &mut frames,
            task_handle,
            SYSCALL_MAP_MEMORY,
            word,
            101,
            2,
            0,
            0
        ),
        ERROR_ALREADY_MAPPED
    );
    assert_eq!(
        handle_syscall(
            &mut objects,
            &mut frames,
            task_handle,
            SYSCALL_UNMAP_MEMORY,
            word,
            100,
            2,
            0,
            0
        ),
        0
    );
    assert_eq!(
        handle_syscall(
            &mut objects,
            &mut frames,
            task_handle,
            SYSCALL_MAP_MEMORY,
            word,
            101,
            2,
            0,
            0
        ),
        0
    );
    match objects.get(space_handle).unwrap() {
        KernelObject::AddressSpace(space) => {
            assert_eq!(space.mappings.len(), 1);
            assert_eq!(space.mappings[0].virt_start.number, 101);
            assert_eq!(space.mappings[0].num_pages, 2);
        },
        KernelObject::Task(_) => panic!("expected an address space"),
    }
}

#[test]
fn user_fault_kills_only_the_offending_task() {
    let (mut objects, mut frames, space_handle, task_handle) = kernel_state();
    // A second running task that must survive.
    let mut bystander = Task::new(space_handle, 0x8000);
    bystander.dispatch();
    let bystander_handle = objects.insert(KernelObject::Task(bystander)).unwrap();
    let before = frames.allocate_n(2).unwrap();
    frames.free(before.start).unwrap();
    frames.free(Frame { number: before.start.number + 1 }).unwrap();

    let outcome = handle_fault(&mut objects, task_handle, false);
    assert_eq!(outcome, FaultOutcome::TaskKilled);
    assert_eq!(task_state(&objects, task_handle), TaskState::Dead);
    // Everything else is untouched.
    assert_eq!(task_state(&objects, bystander_handle), TaskState::Running);
    assert!(objects.get(space_handle).is_ok());
    // The frame allocator was never reached: the same frames are free.
    let after = frames.allocate_n(2).unwrap();
    assert_eq!(after, before);
}

#[test]
fn kernel_fault_is_fatal_and_touches_nothing() {
    let (mut objects, _frames, space_handle, task_handle) = kernel_state();
    let outcome = handle_fault(&mut objects, task_handle, true);
    assert_eq!(outcome, FaultOutcome::KernelFatal);
    assert_eq!(task_state(&objects, task_handle), TaskState::Running);
    assert!(objects.get(space_handle).is_ok());
}

#[test]
fn handle_words_round_trip() {
    let handle = Handle { index: 0x1234, generation: 0xBEEF };
    let word = word_of_handle(handle);
    assert_eq!(word, 0xBEEF_1234);
    assert_eq!(kernel_core::handle_of_word(word), handle);
}
