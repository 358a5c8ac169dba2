//! The memory- and object-lifetime core of a capability-based microkernel.
//!
//! The crate turns a firmware-reported memory descriptor table into typed
//! regions, hands out physical frames through two cooperating allocators,
//! builds per-task address spaces from those frames, and exposes every
//! kernel-managed resource through generation-checked capability handles
//! reached only via the syscall/interrupt trap boundary.

mod address_space;
mod boot_allocator;
mod error;
mod interrupts;
mod memory;
mod memory_map;
mod object_map;
mod pci;
mod physical_memory;
mod platform;
mod platform_bus;
mod syscall;
mod task;

pub use address_space::{
    lemma_mapping_unique, mapping_covers, mapping_wf, mappings_overlap, AddressSpace, CpuState,
    EntryFlags, Mapping, Page, KERNEL_SPACE_BASE_PAGE, USER_SPACE_TOP_PAGE,
};
pub use boot_allocator::{boot_alloc_step, lemma_boot_allocator_monotonic, BootFrameAllocator};
pub use error::{BootError, FrameAllocError, HandleError, MappingError};
pub use interrupts::{
    install_syscall_handler, ExceptionHandlers, InterruptController, InterruptModel,
    SyscallMsrConfig, TimerConfig, TrapTable, APIC_SPURIOUS_VECTOR, APIC_TIMER_VECTOR,
    BREAKPOINT_VECTOR, DOUBLE_FAULT_VECTOR, FREE_VECTORS_START,
    GENERAL_PROTECTION_FAULT_VECTOR, INVALID_OPCODE_VECTOR, LEGACY_PIC_VECTOR, NMI_VECTOR,
    NUM_VECTORS, PAGE_FAULT_VECTOR,
};
pub use memory::{Frame, FRAME_SIZE, MAX_FRAME_NUMBER};
pub use memory_map::{
    lemma_index_in_bounds_iff_counted, spec_memory_type_from_code, MemoryDescriptor, MemoryMap,
    MemoryMapError, MemoryMapIter, MemoryType, DESCRIPTOR_BYTES,
};
pub use object_map::{
    insert_step, lemma_handle_generation_safety, lemma_insert_preserves_wf_objects, remove_step,
    spec_next_generation, wf_object, Generation, Handle, Index, KernelObject, ObjectMap,
    ProcessId, Slot, FIRST_GENERATION, MAX_SLOTS,
};
pub use pci::{
    region_matches, spec_config_offset, EcamAccess, PciConfigRegion, PciConfigRegions,
};
pub use physical_memory::{
    alloc_step, lemma_frame_non_overlap, FrameState, PhysicalMemoryManager,
};
pub use platform::{
    drop_to_userboot, verify_boot_info, BootInfo, GdtSelectors, MemoryController, ModuleMapping,
    Payload, Platform, Stack, Tss, BOOT_INFO_MAGIC, DOUBLE_FAULT_IST_INDEX, PHYSICAL_MAP_BASE,
};
pub use platform_bus::{BusDriverMessage, Device, Property};
pub use syscall::{
    flags_of_word, handle_fault, handle_of_word, handle_syscall, kill_step,
    lemma_fault_containment, lemma_overlap_rejected, lemma_remap_after_unmap, map_memory_step,
    spec_flags_of_word,
    spec_handle_of_word,
    spec_word_of_handle, syscall_step, unmap_memory_step, word_of_handle, FaultOutcome,
    ERROR_ALREADY_MAPPED, ERROR_INVALID_HANDLE, ERROR_NOT_MAPPED, ERROR_NO_MEMORY,
    ERROR_OUT_OF_VIRTUAL_SPACE, ERROR_UNKNOWN_SYSCALL, SYSCALL_EXIT, SYSCALL_MAP_MEMORY,
    SYSCALL_UNMAP_MEMORY, SYSCALL_YIELD,
};
pub use task::{
    prepare_dispatch, transition_allowed, Task, TaskContext, TaskState, UsermodeTransition,
    USER_FLAGS,
};
