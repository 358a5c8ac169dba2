//! The platform-state block: the services built once at boot — memory
//! controller, segment selectors, task-state segment — then shared.
//!
//! Rather than implicit statics, the platform is an explicitly
//! constructed block with a documented one-time initialization phase:
//! `placeholder` builds the empty block, boot code fills it exactly once,
//! and everything after reads it by reference.

use vstd::prelude::*;
use crate::address_space::{AddressSpace, CpuState};
use crate::error::{BootError, FrameAllocError};
use crate::memory::{Frame, FRAME_SIZE};
use crate::object_map::{
    insert_step, Handle, KernelObject, ObjectMap, lemma_insert_preserves_wf_objects, MAX_SLOTS,
};
use crate::physical_memory::PhysicalMemoryManager;
use crate::task::{Task, UsermodeTransition, USER_FLAGS};

verus! {

/// The magic number the bootloader writes into the hand-off block; a
/// mismatch is fatal at kernel start.
pub const BOOT_INFO_MAGIC: u64 = 0xCAFE_BABE;

/// The virtual base of the kernel's direct mapping of physical memory.
pub const PHYSICAL_MAP_BASE: u64 = 0xFFFF_8000_0000_0000;

/// How many frames the direct mapping window can reach; the physical
/// memory manager never tracks frames past it.
pub const PHYSICAL_MAP_FRAMES: u64 = 0x4_0000_0000;

/// The interrupt-stack-table slot reserved for the double-fault handler,
/// so a stack overflow cannot escalate into a triple fault.
pub const DOUBLE_FAULT_IST_INDEX: usize = 0;

/// The payload descriptor of the hand-off block: where the bootloader
/// built the first user task's page tables, and where that task enters.
#[derive(Clone, Copy, Debug, PartialEq, Eq, Structural)]
pub struct Payload {
    pub page_table_address: u64,
    pub entry_point: u64,
}

/// The fixed-layout block the bootloader hands the kernel, consumed once
/// at kernel start.
#[derive(Clone, Copy, Debug, PartialEq, Eq, Structural)]
pub struct BootInfo {
    /// Must equal `BOOT_INFO_MAGIC`; anything else is fatal.
    pub magic: u64,
    /// The physical address of the firmware's ACPI root tables, where
    /// the firmware reports one.
    pub rsdp_address: Option<u64>,
    /// The first user task.
    pub payload: Payload,
}

/// Checks the hand-off block's magic number; a mismatch is an
/// unrecoverable boot error.
pub fn verify_boot_info(boot_info: &BootInfo) -> (r: Result<(), BootError>)
    ensures
        r is Ok <==> boot_info.magic == BOOT_INFO_MAGIC,
        r matches Err(e) ==> e == BootError::BadHandoffMagic,
{
    if boot_info.magic != BOOT_INFO_MAGIC {
        return Err(BootError::BadHandoffMagic);
    }
    Ok(())
}

/// Where a loaded module sits, physically and in the kernel's view.
#[derive(Clone, Copy, Debug, PartialEq, Eq, Structural)]
pub struct ModuleMapping {
    pub physical_start: usize,
    pub physical_end: usize,
    pub virtual_start: usize,
    pub virtual_end: usize,
}

/// The flat segment selectors installed in the descriptor table, needed
/// whenever a privilege transition is configured.
#[derive(Clone, Copy, Debug, PartialEq, Eq, Structural)]
pub struct GdtSelectors {
    pub kernel_code: u16,
    pub kernel_data: u16,
    pub user_code: u16,
    pub user_compat_code: u16,
    pub user_data: u16,
}

/// The task-state segment: the stacks the hardware switches to on a
/// privilege change or a designated interrupt.
pub struct Tss {
    /// Stack pointers per privilege level; entry zero is the kernel
    /// stack.
    pub privilege_stack_table: [u64; 3],
    /// Dedicated interrupt stacks; the double-fault handler uses the
    /// reserved slot so a stack overflow cannot triple-fault.
    pub interrupt_stack_table: [u64; 7],
}

impl Tss {
    /// A fresh segment with no stacks assigned.
    pub fn new() -> (r: Tss)
        ensures
            forall|i: int| 0 <= i < 3 ==> r.privilege_stack_table@[i] == 0,
            forall|i: int| 0 <= i < 7 ==> r.interrupt_stack_table@[i] == 0,
    {
        Tss { privilege_stack_table: [0u64; 3], interrupt_stack_table: [0u64; 7] }
    }

    /// Points the hardware at the kernel stack for privilege changes.
    pub fn set_kernel_stack(&mut self, top: u64)
        ensures
            final(self).privilege_stack_table@ == old(self).privilege_stack_table@.update(0, top),
            final(self).interrupt_stack_table == old(self).interrupt_stack_table,
    {
        self.privilege_stack_table[0] = top;
    }

    /// Assigns one dedicated interrupt stack.
    pub fn set_interrupt_stack(&mut self, index: usize, top: u64)
        requires
            index < 7,
        ensures
            final(self).interrupt_stack_table@ == old(self).interrupt_stack_table@.update(
                index as int,
                top,
            ),
            final(self).privilege_stack_table == old(self).privilege_stack_table,
    {
        self.interrupt_stack_table[index] = top;
    }
}

/// A kernel stack: the virtual range it occupies in the direct mapping.
#[derive(Clone, Copy, Debug, PartialEq, Eq, Structural)]
pub struct Stack {
    pub bottom: u64,
    pub top: u64,
}

/// The memory controller: the kernel-phase frame allocator, the kernel's
/// own address space, and the modules the loader carried in.
pub struct MemoryController {
    pub physical: PhysicalMemoryManager,
    pub kernel_space: AddressSpace,
    pub loaded_modules: Vec<(String, ModuleMapping)>,
}

impl MemoryController {
    /// Well-formedness: the allocator is sound, every frame it tracks
    /// lies inside the direct mapping window, and no two loaded modules
    /// share a name — the key uniqueness the module table is built with.
    pub open spec fn wf(self) -> bool {
        &&& self.physical.wf()
        &&& self.physical.base + self.physical.states@.len() <= PHYSICAL_MAP_FRAMES
        &&& self.kernel_space.wf()
        &&& forall|i: int, j: int|
            0 <= i < j < self.loaded_modules@.len() ==> (#[trigger] self.loaded_modules@[i]).0@
                != (#[trigger] self.loaded_modules@[j]).0@
    }

    /// Allocates a kernel stack of `size_in_pages` contiguous frames and
    /// places it through the direct mapping. Fails exactly when no such
    /// contiguous run is free.
    pub fn alloc_stack(&mut self, size_in_pages: u64) -> (r: Option<Stack>)
        requires
            old(self).wf(),
        ensures
            final(self).wf(),
            final(self).kernel_space == old(self).kernel_space,
            final(self).loaded_modules == old(self).loaded_modules,
            r is Some <==> exists|s: int| old(self).physical.free_run(s, size_in_pages as int),
            r matches Some(stack) ==> {
                &&& stack.bottom < stack.top || size_in_pages == 0
                &&& stack.top - stack.bottom == size_in_pages * FRAME_SIZE
                &&& exists|fr: core::ops::Range<Frame>|
                    {
                        &&& crate::physical_memory::alloc_step(
                            old(self).physical,
                            final(self).physical,
                            size_in_pages,
                            fr,
                        )
                        &&& stack.bottom == PHYSICAL_MAP_BASE + fr.start.number * FRAME_SIZE
                        &&& stack.top == PHYSICAL_MAP_BASE + fr.end.number * FRAME_SIZE
                    }
            },
            r is None ==> final(self).physical == old(self).physical,
    {
        let range = match self.physical.allocate_n(size_in_pages) {
            Ok(range) => range,
            Err(_) => {
                return None;
            },
        };
        let bottom = PHYSICAL_MAP_BASE + range.start.number * FRAME_SIZE;
        let top = PHYSICAL_MAP_BASE + range.end.number * FRAME_SIZE;
        Some(Stack { bottom, top })
    }
}

/// The platform-state block. Its optional fields are `None` from
/// `placeholder` until boot code installs the real services, exactly
/// once; afterwards they are only read.
pub struct Platform {
    pub memory_controller: Option<MemoryController>,
    pub gdt_selectors: Option<GdtSelectors>,
    pub tss: Tss,
}

impl Platform {
    /// The empty block that exists before boot fills it: no services, no
    /// live resources, and a fresh task-state segment with no stacks
    /// assigned.
    pub fn placeholder() -> (r: Platform)
        ensures
            r.memory_controller is None,
            r.gdt_selectors is None,
            forall|i: int| 0 <= i < 3 ==> r.tss.privilege_stack_table@[i] == 0,
            forall|i: int| 0 <= i < 7 ==> r.tss.interrupt_stack_table@[i] == 0,
    {
        Platform { memory_controller: None, gdt_selectors: None, tss: Tss::new() }
    }

    /// Looks a loaded module up by name: the first module carrying the
    /// name, if any does.
    pub fn get_module_mapping(&self, module_name: &str) -> (r: Option<ModuleMapping>)
        requires
            self.memory_controller is Some,
        ensures
            r is Some <==> exists|j: int|
                0 <= j < self.memory_controller.unwrap().loaded_modules@.len() && (
                #[trigger] self.memory_controller.unwrap().loaded_modules@[j]).0@
                    == module_name@,
            r matches Some(m) ==> exists|j: int|
                {
                    &&& 0 <= j < self.memory_controller.unwrap().loaded_modules@.len()
                    &&& (#[trigger] self.memory_controller.unwrap().loaded_modules@[j]).0@
                        == module_name@
                    &&& m == self.memory_controller.unwrap().loaded_modules@[j].1
                    &&& forall|k: int|
                        0 <= k < j ==> (#[trigger] self.memory_controller.unwrap().loaded_modules@[k]).0@
                            != module_name@
                },
    {
        let controller = match &self.memory_controller {
            Some(controller) => controller,
            None => vstd::pervasive::unreached(),
        };
        let needle: String = module_name.to_owned();
        let count = controller.loaded_modules.len();
        let mut j: usize = 0;
        while j < count
            invariant
                self.memory_controller is Some,
                *controller == self.memory_controller.unwrap(),
                count == controller.loaded_modules@.len(),
                j <= count,
                needle@ == module_name@,
                forall|k: int|
                    0 <= k < j ==> (#[trigger] controller.loaded_modules@[k]).0@ != module_name@,
            decreases count - j,
        {
            if controller.loaded_modules[j].0 == needle {
                proof {
                    assert((self.memory_controller.unwrap().loaded_modules@[j as int]).0@
                        == module_name@);
                    assert forall|k: int|
                        0 <= k < j implies (
                    #[trigger] self.memory_controller.unwrap().loaded_modules@[k]).0@
                        != module_name@ by {
                        assert(controller.loaded_modules@[k].0@ != module_name@);
                    }
                }
                return Some(controller.loaded_modules[j].1);
            }
            j = j + 1;
        }
        proof {
            assert forall|k: int|
                0 <= k < self.memory_controller.unwrap().loaded_modules@.len() implies (
            #[trigger] self.memory_controller.unwrap().loaded_modules@[k]).0@ != module_name@ by {
                assert(controller.loaded_modules@[k].0@ != module_name@);
            }
        }
        None
    }

    /// Creates a runnable unit from a loaded image: a fresh address
    /// space over a newly allocated page-table root, and a task entering
    /// at the image start, both owned by the object map. The image's
    /// segments are placed by the loader at the machine edge; the image
    /// bounds are recorded nowhere else. Fails exactly when no frame is
    /// free for the page-table root.
    pub fn create_process(
        &mut self,
        objects: &mut ObjectMap,
        image_start: u64,
        _image_end: u64,
    ) -> (r: Result<Handle, FrameAllocError>)
        requires
            old(self).memory_controller matches Some(c) && c.wf(),
            old(objects).wf(),
            old(objects).wf_objects(),
            old(objects).slots@.len() + 2 <= MAX_SLOTS,
        ensures
            final(objects).wf(),
            final(objects).wf_objects(),
            final(self).memory_controller is Some,
            // The map gains exactly the two new objects, by two
            // insertion steps and nothing else: every slot the steps did
            // not use — occupied or free — is unchanged, and no third
            // object appears.
            old(objects).slots@.len() <= final(objects).slots@.len() <= old(objects).slots@.len()
                + 2,
            forall|k: int|
                0 <= k < old(objects).slots@.len() && (#[trigger] old(objects).slots@[k]).object
                    is Some ==> final(objects).slots@[k] == old(objects).slots@[k],
            r is Ok <==> exists|s: int|
                old(self).memory_controller.unwrap().physical.free_run(s, 1),
            r matches Ok(h) ==> {
                &&& final(objects).valid_handle(h)
                &&& final(objects).object_of(h) matches KernelObject::Task(t) && t.state is Ready
                    && t.entry_point == image_start && final(objects).valid_handle(t.address_space)
                    && (final(objects).object_of(t.address_space)
                    matches KernelObject::AddressSpace(s) && s.mappings@.len() == 0 && exists|
                    fr: core::ops::Range<Frame>,
                |
                    {
                        &&& crate::physical_memory::alloc_step(
                            old(self).memory_controller.unwrap().physical,
                            final(self).memory_controller.unwrap().physical,
                            1,
                            fr,
                        )
                        &&& s.page_table_root == fr.start
                    }) && (forall|k: int|
                    0 <= k < old(objects).slots@.len() && k != h.index && k
                        != t.address_space.index ==> #[trigger] final(objects).slots@[k] == old(
                        objects,
                    ).slots@[k])
                &&& exists|mid: ObjectMap, space_h: Handle, s: AddressSpace, t: Task|
                    {
                        &&& #[trigger] insert_step(
                            *old(objects),
                            mid,
                            KernelObject::AddressSpace(s),
                            space_h,
                        )
                        &&& #[trigger] insert_step(mid, *final(objects), KernelObject::Task(t), h)
                        &&& t.address_space == space_h
                    }
            },
            r is Err ==> *final(objects) == *old(objects) && *final(self) == *old(self),
    {
        let controller = match &mut self.memory_controller {
            Some(controller) => controller,
            None => vstd::pervasive::unreached(),
        };
        let root_range = match controller.physical.allocate_n(1) {
            Ok(range) => range,
            Err(_) => {
                return Err(FrameAllocError::AllocationFailure);
            },
        };
        let space = AddressSpace::from_page_table(root_range.start);
        let ghost placed = space;
        let ghost o0 = *objects;
        let space_handle = match objects.insert(KernelObject::AddressSpace(space)) {
            Ok(handle) => handle,
            Err(_) => vstd::pervasive::unreached(),
        };
        proof {
            lemma_insert_preserves_wf_objects(
                o0,
                *objects,
                KernelObject::AddressSpace(placed),
                space_handle,
            );
        }
        let task = Task::new(space_handle, image_start);
        let ghost o1 = *objects;
        let task_handle = match objects.insert(KernelObject::Task(task)) {
            Ok(handle) => handle,
            Err(_) => vstd::pervasive::unreached(),
        };
        proof {
            lemma_insert_preserves_wf_objects(o1, *objects, KernelObject::Task(task), task_handle);
            assert(objects.valid_handle(space_handle));
            assert(objects.object_of(task_handle) == KernelObject::Task(task));
            assert(objects.object_of(space_handle) == KernelObject::AddressSpace(placed));
            assert(placed.mappings@.len() == 0);
            assert(placed.page_table_root == root_range.start);
            assert(crate::physical_memory::alloc_step(
                old(self).memory_controller.unwrap().physical,
                self.memory_controller.unwrap().physical,
                1,
                root_range,
            ));
            assert(insert_step(o0, o1, KernelObject::AddressSpace(placed), space_handle));
            assert(insert_step(o1, *objects, KernelObject::Task(task), task_handle));
            assert forall|k: int|
                0 <= k < o0.slots@.len() && k != task_handle.index && k != space_handle.index
                    implies #[trigger] objects.slots@[k] == o0.slots@[k] by {
                assert(o1.slots@[k] == o0.slots@[k]);
            }
        }
        Ok(task_handle)
    }
}

/// Builds the first user task out of the hand-off payload and performs
/// everything of the drop to user mode that decides: the bootloader's
/// page tables become an address space, the task is created and
/// dispatched, the space is activated on this CPU, and the register
/// state for the one-way privilege transition is computed. The actual
/// jump never returns and happens at the machine edge.
pub fn drop_to_userboot(objects: &mut ObjectMap, boot_info: &BootInfo, cpu: &mut CpuState) -> (r: (
    Handle,
    UsermodeTransition,
))
    requires
        old(objects).wf(),
        old(objects).wf_objects(),
        old(objects).slots@.len() + 2 <= MAX_SLOTS,
        boot_info.magic == BOOT_INFO_MAGIC,
    ensures
        final(objects).wf(),
        final(objects).wf_objects(),
        // The map gains exactly the two new objects, by two insertion
        // steps and nothing else: every slot the steps did not use —
        // occupied or free — is unchanged, and no third object appears.
        old(objects).slots@.len() <= final(objects).slots@.len() <= old(objects).slots@.len() + 2,
        forall|k: int|
            0 <= k < old(objects).slots@.len() && (#[trigger] old(objects).slots@[k]).object
                is Some ==> final(objects).slots@[k] == old(objects).slots@[k],
        final(objects).valid_handle(r.0),
        final(objects).object_of(r.0) matches KernelObject::Task(t) && t.state is Running
            && t.entry_point == boot_info.payload.entry_point && final(objects).valid_handle(
            t.address_space,
        ) && (final(objects).object_of(t.address_space) matches KernelObject::AddressSpace(s)
            && s.page_table_root.number == boot_info.payload.page_table_address / FRAME_SIZE
            && s.mappings@.len() == 0) && (forall|k: int|
            0 <= k < old(objects).slots@.len() && k != r.0.index && k != t.address_space.index
                ==> #[trigger] final(objects).slots@[k] == old(objects).slots@[k]),
        exists|mid: ObjectMap, space_h: Handle, s: AddressSpace, t: Task|
            {
                &&& #[trigger] insert_step(
                    *old(objects),
                    mid,
                    KernelObject::AddressSpace(s),
                    space_h,
                )
                &&& #[trigger] insert_step(mid, *final(objects), KernelObject::Task(t), r.0)
                &&& t.address_space == space_h
            },
        final(cpu).active_root.number == boot_info.payload.page_table_address / FRAME_SIZE,
        r.1.instruction_pointer == boot_info.payload.entry_point,
        r.1.page_table_root.number == boot_info.payload.page_table_address / FRAME_SIZE,
{
    let root = Frame::containing(boot_info.payload.page_table_address);
    let space = AddressSpace::from_page_table(root);
    space.activate(cpu);
    let ghost placed = space;
    let ghost o0 = *objects;
    let space_handle = match objects.insert(KernelObject::AddressSpace(space)) {
        Ok(handle) => handle,
        Err(_) => vstd::pervasive::unreached(),
    };
    proof {
        lemma_insert_preserves_wf_objects(
            o0,
            *objects,
            KernelObject::AddressSpace(placed),
            space_handle,
        );
    }
    let mut task = Task::new(space_handle, boot_info.payload.entry_point);
    task.dispatch();
    let transition = UsermodeTransition {
        page_table_root: root,
        instruction_pointer: task.context.instruction_pointer,
        stack_pointer: task.context.stack_pointer,
        flags: USER_FLAGS,
    };
    let ghost o1 = *objects;
    let task_handle = match objects.insert(KernelObject::Task(task)) {
        Ok(handle) => handle,
        Err(_) => vstd::pervasive::unreached(),
    };
    proof {
        lemma_insert_preserves_wf_objects(o1, *objects, KernelObject::Task(task), task_handle);
        assert(objects.valid_handle(space_handle));
        assert(insert_step(o0, o1, KernelObject::AddressSpace(placed), space_handle));
        assert(insert_step(o1, *objects, KernelObject::Task(task), task_handle));
        assert forall|k: int|
            0 <= k < o0.slots@.len() && k != task_handle.index && k != space_handle.index
                implies #[trigger] objects.slots@[k] == o0.slots@[k] by {
            assert(o1.slots@[k] == o0.slots@[k]);
        }
    }
    (task_handle, transition)
}

} // verus!
