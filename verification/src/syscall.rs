//! The syscall side of the trap boundary.
//!
//! The syscall entry receives a syscall number plus word-sized arguments,
//! dispatches by number to an operation on the capability object map, a
//! task, or an address space, and returns a single word-sized result:
//! success payload or error code, with no separate exception channel back
//! to the user. Unknown syscall numbers return an error code and never
//! panic the kernel. The trap boundary is the only place that converts an
//! internal error value into a user-visible return code or a task-kill
//! decision.

use vstd::prelude::*;
use crate::address_space::{AddressSpace, EntryFlags, Mapping, Page, USER_SPACE_TOP_PAGE};
use crate::memory::Frame;
use crate::object_map::{Handle, KernelObject, ObjectMap, Slot};
use crate::physical_memory::{alloc_step, PhysicalMemoryManager};
use crate::task::{Task, TaskState};
use core::ops::Range;

verus! {

/// A cooperative reschedule point. The task stays runnable; picking the
/// next task is the scheduler's business, outside the core.
pub const SYSCALL_YIELD: u64 = 0;

/// Explicit exit: the calling task goes `Running → Dead`.
pub const SYSCALL_EXIT: u64 = 1;

/// Maps fresh physical frames into an address space named by a handle.
pub const SYSCALL_MAP_MEMORY: u64 = 2;

/// Unmaps one previously mapped range of an address space.
pub const SYSCALL_UNMAP_MEMORY: u64 = 3;

/// The number was not a syscall; the kernel is unaffected.
pub const ERROR_UNKNOWN_SYSCALL: u64 = 0xFFFF_FFFF_FFFF_FFFF;

/// The handle argument did not resolve to an object of the right kind.
pub const ERROR_INVALID_HANDLE: u64 = 0xFFFF_FFFF_FFFF_FFFE;

/// The requested virtual range leaves the user half.
pub const ERROR_OUT_OF_VIRTUAL_SPACE: u64 = 0xFFFF_FFFF_FFFF_FFFD;

/// Part of the requested virtual range is already mapped.
pub const ERROR_ALREADY_MAPPED: u64 = 0xFFFF_FFFF_FFFF_FFFC;

/// The requested virtual range is not one whole mapped range.
pub const ERROR_NOT_MAPPED: u64 = 0xFFFF_FFFF_FFFF_FFFB;

/// No contiguous run of free frames long enough exists.
pub const ERROR_NO_MEMORY: u64 = 0xFFFF_FFFF_FFFF_FFFA;

/// The handle encoded in a syscall argument word: the slot index in the
/// low sixteen bits, the generation in the next sixteen.
pub open spec fn spec_handle_of_word(w: u64) -> Handle {
    Handle { index: (w & 0xFFFF) as u16, generation: ((w >> 16) & 0xFFFF) as u16 }
}

/// The argument word encoding a handle.
pub open spec fn spec_word_of_handle(h: Handle) -> u64 {
    (h.index as u64) | ((h.generation as u64) << 16)
}

/// Decodes a handle from a syscall argument word.
pub fn handle_of_word(w: u64) -> (r: Handle)
    ensures
        r == spec_handle_of_word(w),
{
    proof {
        assert(w & 0xFFFF <= 0xFFFF && (w >> 16) & 0xFFFF <= 0xFFFF) by (bit_vector);
    }
    Handle { index: (w & 0xFFFF) as u16, generation: ((w >> 16) & 0xFFFF) as u16 }
}

/// Encodes a handle into a syscall argument word, as user code does
/// before naming an object across the boundary.
pub fn word_of_handle(h: Handle) -> (r: u64)
    ensures
        r == spec_word_of_handle(h),
        spec_handle_of_word(r) == h,
{
    let r = (h.index as u64) | ((h.generation as u64) << 16);
    proof {
        let i = h.index as u64;
        let g = h.generation as u64;
        assert((i | (g << 16)) & 0xFFFF == i && ((i | (g << 16)) >> 16) & 0xFFFF == g)
            by (bit_vector)
            requires
                i <= 0xFFFF,
                g <= 0xFFFF,
        ;
    }
    r
}

/// The permission flags encoded in a syscall argument word. Mappings made
/// on behalf of user code are always present and user-accessible; the
/// word's low bits ask for write access, no-execute, and no-cache.
pub open spec fn spec_flags_of_word(w: u64) -> EntryFlags {
    EntryFlags {
        present: true,
        writable: w & 1 != 0,
        no_execute: w & 2 != 0,
        user_accessible: true,
        no_cache: w & 4 != 0,
    }
}

/// Decodes mapping permission flags from a syscall argument word.
pub fn flags_of_word(w: u64) -> (r: EntryFlags)
    ensures
        r == spec_flags_of_word(w),
{
    EntryFlags {
        present: true,
        writable: w & 1 != 0,
        no_execute: w & 2 != 0,
        user_accessible: true,
        no_cache: w & 4 != 0,
    }
}

/// One task killed in place: the slot keeps its generation and its task,
/// the task keeps everything but its state, which becomes `Dead`.
pub open spec fn kill_step(pre: ObjectMap, post: ObjectMap, h: Handle) -> bool {
    &&& pre.valid_handle(h)
    &&& pre.object_of(h) matches KernelObject::Task(t0) && t0.state is Running
        && post.slots@ == pre.slots@.update(
        h.index as int,
        (Slot {
            generation: h.generation,
            object: Some(KernelObject::Task(Task { state: TaskState::Dead, ..t0 })),
        }),
    )
}

/// What one syscall does: the relation between the object map and frame
/// allocator before and after, the arguments, and the returned word.
pub open spec fn syscall_step(
    o0: ObjectMap,
    o1: ObjectMap,
    f0: PhysicalMemoryManager,
    f1: PhysicalMemoryManager,
    current: Handle,
    number: u64,
    a: u64,
    b: u64,
    c: u64,
    d: u64,
    r: u64,
) -> bool {
    if number == SYSCALL_YIELD {
        r == 0 && o1.slots@ == o0.slots@ && f1 == f0
    } else if number == SYSCALL_EXIT {
        r == 0 && kill_step(o0, o1, current) && f1 == f0
    } else if number == SYSCALL_MAP_MEMORY {
        map_memory_step(o0, o1, f0, f1, a, b, c, d, r)
    } else if number == SYSCALL_UNMAP_MEMORY {
        f1 == f0 && unmap_memory_step(o0, o1, a, b, c, r)
    } else {
        r == ERROR_UNKNOWN_SYSCALL && o1.slots@ == o0.slots@ && f1 == f0
    }
}

/// What the map-memory syscall does. `a` names an address space, `b` is
/// the first page, `c` the page count, `d` the permission word. Errors
/// are reported in order: a bad handle, then a range leaving the user
/// half, then an overlap, then frame exhaustion; on an error nothing
/// changes. On success fresh frames are cut from the allocator and the
/// range maps exactly onto them.
pub open spec fn map_memory_step(
    o0: ObjectMap,
    o1: ObjectMap,
    f0: PhysicalMemoryManager,
    f1: PhysicalMemoryManager,
    a: u64,
    b: u64,
    c: u64,
    d: u64,
    r: u64,
) -> bool {
    let h = spec_handle_of_word(a);
    if !(o0.valid_handle(h) && o0.object_of(h) is AddressSpace) {
        r == ERROR_INVALID_HANDLE && o1.slots@ == o0.slots@ && f1 == f0
    } else {
        let s0 = o0.object_of(h)->AddressSpace_0;
        if b + c > USER_SPACE_TOP_PAGE {
            r == ERROR_OUT_OF_VIRTUAL_SPACE && o1.slots@ == o0.slots@ && f1 == f0
        } else if exists|p: int| b <= p < b + c && s0.page_mapped(p) {
            r == ERROR_ALREADY_MAPPED && o1.slots@ == o0.slots@ && f1 == f0
        } else if !(exists|s: int| f0.free_run(s, c as int)) {
            r == ERROR_NO_MEMORY && o1.slots@ == o0.slots@ && f1 == f0
        } else {
            &&& r == 0
            &&& exists|fr: Range<Frame>, s1: AddressSpace|
                {
                    &&& alloc_step(f0, f1, c, fr)
                    &&& o1.slots@ == o0.slots@.update(
                        h.index as int,
                        (Slot {
                            generation: h.generation,
                            object: Some(KernelObject::AddressSpace(s1)),
                        }),
                    )
                    &&& s1.page_table_root == s0.page_table_root
                    &&& s1.wf()
                    &&& forall|p: int|
                        s1.page_mapped(p) <==> (s0.page_mapped(p) || b <= p < b + c)
                    &&& (c > 0 ==> s1.mappings@ == s0.mappings@.push(
                        (Mapping {
                            virt_start: Page { number: b },
                            num_pages: c,
                            frame_start: fr.start,
                            flags: spec_flags_of_word(d),
                        }),
                    ))
                    &&& (c == 0 ==> s1 == s0)
                }
        }
    }
}

/// What the unmap-memory syscall does. `a` names an address space, `b`
/// the first page, `c` the page count; the range must be one whole
/// previously mapped range. The frame allocator is never touched:
/// returning the backing frames is the caller's decision, made through
/// `free` with the frames it owns.
pub open spec fn unmap_memory_step(
    o0: ObjectMap,
    o1: ObjectMap,
    a: u64,
    b: u64,
    c: u64,
    r: u64,
) -> bool {
    let h = spec_handle_of_word(a);
    if !(o0.valid_handle(h) && o0.object_of(h) is AddressSpace) {
        r == ERROR_INVALID_HANDLE && o1.slots@ == o0.slots@
    } else {
        let s0 = o0.object_of(h)->AddressSpace_0;
        if !(exists|j: int|
            0 <= j < s0.mappings@.len() && (#[trigger] s0.mappings@[j]).virt_start.number == b
                && s0.mappings@[j].num_pages == c) {
            r == ERROR_NOT_MAPPED && o1.slots@ == o0.slots@
        } else {
            &&& r == 0
            &&& exists|s1: AddressSpace|
                {
                    &&& o1.slots@ == o0.slots@.update(
                        h.index as int,
                        (Slot {
                            generation: h.generation,
                            object: Some(KernelObject::AddressSpace(s1)),
                        }),
                    )
                    &&& s1.page_table_root == s0.page_table_root
                    &&& s1.wf()
                    &&& forall|p: int|
                        s1.page_mapped(p) <==> (s0.page_mapped(p) && !(b <= p < b + c))
                    &&& exists|j: int|
                        {
                            &&& 0 <= j < s0.mappings@.len()
                            &&& (#[trigger] s0.mappings@[j]).virt_start.number == b
                            &&& s0.mappings@[j].num_pages == c
                            &&& s1.mappings@ == s0.mappings@.remove(j)
                        }
                }
        }
    }
}

/// Kills the calling task in place: `Running → Dead`, everything else in
/// the map untouched.
fn sys_exit(objects: &mut ObjectMap, current: Handle)
    requires
        old(objects).wf(),
        old(objects).valid_handle(current),
        old(objects).object_of(current) matches KernelObject::Task(t) && t.state is Running,
    ensures
        final(objects).wf(),
        kill_step(*old(objects), *final(objects), current),
{
    let object = match objects.get_mut(current) {
        Ok(object) => object,
        Err(_) => vstd::pervasive::unreached(),
    };
    match object {
        KernelObject::Task(task) => task.kill(),
        KernelObject::AddressSpace(_) => vstd::pervasive::unreached(),
    }
}

/// The map-memory operation behind `SYSCALL_MAP_MEMORY`.
fn sys_map_memory(
    objects: &mut ObjectMap,
    frames: &mut PhysicalMemoryManager,
    a: u64,
    b: u64,
    c: u64,
    d: u64,
) -> (r: u64)
    requires
        old(objects).wf(),
        old(objects).wf_objects(),
        old(frames).wf(),
    ensures
        final(objects).wf(),
        final(objects).wf_objects(),
        final(frames).wf(),
        map_memory_step(*old(objects), *final(objects), *old(frames), *final(frames), a, b, c, d, r),
{
    let h = handle_of_word(a);
    let valid_space = match objects.get(h) {
        Ok(object) => match object {
            KernelObject::AddressSpace(_) => true,
            KernelObject::Task(_) => false,
        },
        Err(_) => false,
    };
    if !valid_space {
        return ERROR_INVALID_HANDLE;
    }
    if c > USER_SPACE_TOP_PAGE || b > USER_SPACE_TOP_PAGE - c {
        return ERROR_OUT_OF_VIRTUAL_SPACE;
    }
    let space_now = match objects.get(h) {
        Ok(object) => match object {
            KernelObject::AddressSpace(space) => space,
            KernelObject::Task(_) => vstd::pervasive::unreached(),
        },
        Err(_) => vstd::pervasive::unreached(),
    };
    if !space_now.range_free(Page { number: b }..Page { number: b + c }) {
        return ERROR_ALREADY_MAPPED;
    }
    let frame_range = match frames.allocate_n(c) {
        Ok(frame_range) => frame_range,
        Err(_) => {
            return ERROR_NO_MEMORY;
        },
    };
    let flags = flags_of_word(d);
    let ghost taken = frame_range;
    let object = match objects.get_mut(h) {
        Ok(object) => object,
        Err(_) => vstd::pervasive::unreached(),
    };
    let space = match object {
        KernelObject::AddressSpace(space) => space,
        KernelObject::Task(_) => vstd::pervasive::unreached(),
    };
    let mapped = space.map(Page { number: b }..Page { number: b + c }, frame_range, flags);
    match mapped {
        Ok(_) => {},
        Err(_) => {
            return vstd::pervasive::unreached();
        },
    }
    proof {
        let o0 = *old(objects);
        let s0 = o0.object_of(h)->AddressSpace_0;
        let s1 = objects.slots@[h.index as int].object.unwrap()->AddressSpace_0;
        assert(objects.slots@[h.index as int].object == Some(
            KernelObject::AddressSpace(s1),
        ));
        assert(alloc_step(*old(frames), *frames, c, taken));
        assert(forall|p: int| s1.page_mapped(p) <==> (s0.page_mapped(p) || b <= p < b + c));
        if c > 0 {
            assert(s1.mappings@ == s0.mappings@.push(
                (Mapping {
                    virt_start: Page { number: b },
                    num_pages: c,
                    frame_start: taken.start,
                    flags: spec_flags_of_word(d),
                }),
            ));
        } else {
            assert(s1 == s0);
        }
        assert forall|k: int|
            0 <= k < objects.slots@.len() && (#[trigger] objects.slots@[k]).object is Some
                implies crate::object_map::wf_object(objects.slots@[k].object.unwrap()) by {
            if k != h.index as int {
                assert(objects.slots@[k] == o0.slots@[k]);
            }
        }
    }
    0
}

/// The unmap-memory operation behind `SYSCALL_UNMAP_MEMORY`.
fn sys_unmap_memory(objects: &mut ObjectMap, a: u64, b: u64, c: u64) -> (r: u64)
    requires
        old(objects).wf(),
        old(objects).wf_objects(),
    ensures
        final(objects).wf(),
        final(objects).wf_objects(),
        unmap_memory_step(*old(objects), *final(objects), a, b, c, r),
{
    let h = handle_of_word(a);
    let valid_space = match objects.get(h) {
        Ok(object) => match object {
            KernelObject::AddressSpace(_) => true,
            KernelObject::Task(_) => false,
        },
        Err(_) => false,
    };
    if !valid_space {
        return ERROR_INVALID_HANDLE;
    }
    proof {
        assert(old(objects).slots@[h.index as int].object is Some);
        assert(crate::object_map::wf_object(old(objects).slots@[h.index as int].object.unwrap()));
    }
    if c > USER_SPACE_TOP_PAGE || b > USER_SPACE_TOP_PAGE - c {
        proof {
            let s0 = old(objects).object_of(h)->AddressSpace_0;
            assert forall|j: int|
                0 <= j < s0.mappings@.len() implies !((#[trigger] s0.mappings@[j]).virt_start.number
                == b && s0.mappings@[j].num_pages == c) by {
                assert(crate::address_space::mapping_wf(s0.mappings@[j]));
            }
        }
        // No whole mapping can span a range that leaves the user half.
        return ERROR_NOT_MAPPED;
    }
    let object = match objects.get_mut(h) {
        Ok(object) => object,
        Err(_) => vstd::pervasive::unreached(),
    };
    let space = match object {
        KernelObject::AddressSpace(space) => space,
        KernelObject::Task(_) => vstd::pervasive::unreached(),
    };
    let result = space.unmap(Page { number: b }..Page { number: b + c });
    match result {
        Ok(_) => {
            proof {
                let o0 = *old(objects);
                let s0 = o0.object_of(h)->AddressSpace_0;
                let s1 = objects.slots@[h.index as int].object.unwrap()->AddressSpace_0;
                assert(objects.slots@[h.index as int].object == Some(
                    KernelObject::AddressSpace(s1),
                ));
                assert(forall|p: int|
                    s1.page_mapped(p) <==> (s0.page_mapped(p) && !(b <= p < b + c)));
                let j = choose|j: int|
                    {
                        &&& 0 <= j < s0.mappings@.len()
                        &&& (#[trigger] s0.mappings@[j]).virt_start == (Page { number: b })
                        &&& s0.mappings@[j].num_pages == (b + c) - b
                        &&& s1.mappings@ == s0.mappings@.remove(j)
                    };
                assert(s0.mappings@[j].virt_start.number == b && s0.mappings@[j].num_pages == c
                    && s1.mappings@ == s0.mappings@.remove(j));
                assert forall|k: int|
                    0 <= k < objects.slots@.len() && (#[trigger] objects.slots@[k]).object is Some
                        implies crate::object_map::wf_object(
                        objects.slots@[k].object.unwrap(),
                    ) by {
                    if k != h.index as int {
                        assert(objects.slots@[k] == o0.slots@[k]);
                    }
                }
            }
            0
        },
        Err(_) => {
            proof {
                let o0 = *old(objects);
                assert(objects.slots@ =~= o0.slots@);
            }
            ERROR_NOT_MAPPED
        },
    }
}

/// The outcome of a hardware fault, decided at the trap boundary.
#[derive(Clone, Copy, Debug, PartialEq, Eq, Structural)]
pub enum FaultOutcome {
    /// The fault struck while executing kernel code: always fatal; the
    /// caller halts the machine with a diagnostic.
    KernelFatal,
    /// The fault was attributed to the running task's user code: that
    /// task is now `Dead` and the kernel keeps running.
    TaskKilled,
}

/// Decides a hardware fault: fatal in kernel context, and in user context
/// the offending task — and only it — is killed. Everything else in the
/// object map is untouched, and the frame allocator is never reached from
/// here, so no frame is leaked or duplicated by a fault.
pub fn handle_fault(objects: &mut ObjectMap, current: Handle, in_kernel: bool) -> (r:
    FaultOutcome)
    requires
        old(objects).wf(),
        old(objects).wf_objects(),
        !in_kernel ==> old(objects).valid_handle(current) && (old(objects).object_of(current)
            matches KernelObject::Task(t) && t.state is Running),
    ensures
        final(objects).wf(),
        final(objects).wf_objects(),
        in_kernel ==> r is KernelFatal && final(objects).slots@ == old(objects).slots@,
        !in_kernel ==> r is TaskKilled && kill_step(*old(objects), *final(objects), current),
{
    if in_kernel {
        return FaultOutcome::KernelFatal;
    }
    sys_exit(objects, current);
    proof {
        lemma_kill_step_preserves_wf_objects(*old(objects), *objects, current);
    }
    FaultOutcome::TaskKilled
}

/// Killing a task keeps every stored object sound: the slot's new task
/// differs only in its state.
proof fn lemma_kill_step_preserves_wf_objects(o0: ObjectMap, o1: ObjectMap, h: Handle)
    requires
        o0.wf_objects(),
        kill_step(o0, o1, h),
    ensures
        o1.wf_objects(),
{
    assert forall|k: int|
        0 <= k < o1.slots@.len() && (#[trigger] o1.slots@[k]).object is Some
            implies crate::object_map::wf_object(o1.slots@[k].object.unwrap()) by {
        if k != h.index as int {
            assert(o1.slots@[k] == o0.slots@[k]);
        }
    }
}

/// The trap boundary's syscall dispatcher: routes a syscall number and
/// its word-sized arguments to the operation it names, and turns every
/// internal error into a user-visible return code. Unknown numbers
/// return an error code; the kernel is unaffected and never panics.
pub fn handle_syscall(
    objects: &mut ObjectMap,
    frames: &mut PhysicalMemoryManager,
    current: Handle,
    number: u64,
    a: u64,
    b: u64,
    c: u64,
    d: u64,
    _e: u64,
) -> (r: u64)
    requires
        old(objects).wf(),
        old(objects).wf_objects(),
        old(frames).wf(),
        old(objects).valid_handle(current),
        old(objects).object_of(current) matches KernelObject::Task(t) && t.state is Running,
    ensures
        final(objects).wf(),
        final(objects).wf_objects(),
        final(frames).wf(),
        syscall_step(
            *old(objects),
            *final(objects),
            *old(frames),
            *final(frames),
            current,
            number,
            a,
            b,
            c,
            d,
            r,
        ),
{
    if number == SYSCALL_YIELD {
        0
    } else if number == SYSCALL_EXIT {
        sys_exit(objects, current);
        proof {
            lemma_kill_step_preserves_wf_objects(*old(objects), *objects, current);
        }
        0
    } else if number == SYSCALL_MAP_MEMORY {
        sys_map_memory(objects, frames, a, b, c, d)
    } else if number == SYSCALL_UNMAP_MEMORY {
        sys_unmap_memory(objects, a, b, c)
    } else {
        ERROR_UNKNOWN_SYSCALL
    }
}

/// Mapping overlap rejection: while the two pages mapped at `v` remain
/// mapped, a map request for the two pages at `v + 1` — overlapping the
/// live mapping in its second page — is owed exactly the already-mapped
/// error, and neither the object map nor the frame allocator moves. The
/// overlapping range must lie wholly inside the user half: a range
/// leaving it is reported as out-of-virtual-space before overlap is
/// looked at, and the trap contract fixes that order.
pub proof fn lemma_overlap_rejected(
    o0: ObjectMap,
    o1: ObjectMap,
    o2: ObjectMap,
    f0: PhysicalMemoryManager,
    f1: PhysicalMemoryManager,
    f2: PhysicalMemoryManager,
    a: u64,
    v: u64,
    d: u64,
    d2: u64,
    r: u64,
)
    requires
        map_memory_step(o0, o1, f0, f1, a, v, 2, d, 0),
        v + 3 <= USER_SPACE_TOP_PAGE,
        map_memory_step(o1, o2, f1, f2, a, (v + 1) as u64, 2, d2, r),
    ensures
        r == ERROR_ALREADY_MAPPED,
        o2.slots@ == o1.slots@,
        f2 == f1,
{
    let h = spec_handle_of_word(a);
    let s0 = o0.object_of(h)->AddressSpace_0;
    // The first map returned success, so the handle resolved.
    assert(o0.valid_handle(h) && o0.object_of(h) is AddressSpace);
    let s1 = choose|s1: AddressSpace|
        {
            &&& o1.slots@ == o0.slots@.update(
                h.index as int,
                (Slot { generation: h.generation, object: Some(KernelObject::AddressSpace(s1)) }),
            )
            &&& s1.wf()
            &&& forall|p: int| s1.page_mapped(p) <==> (s0.page_mapped(p) || v <= p < v + 2)
        };
    assert(o1.valid_handle(h) && o1.object_of(h) == KernelObject::AddressSpace(s1));
    // The new range's first page is still mapped, so the second request
    // can only be in the already-mapped branch of its relation.
    assert(s1.page_mapped(v + 1));
    assert(o1.object_of(h)->AddressSpace_0 == s1);
    assert(exists|p: int|
        (v + 1) as u64 <= p < (v + 1) as u64 + 2 && o1.object_of(h)->AddressSpace_0.page_mapped(
            p,
        )) by {
        assert((v + 1) as u64 <= v + 1 < (v + 1) as u64 + 2);
        assert(o1.object_of(h)->AddressSpace_0.page_mapped(v + 1));
    }
}

/// Mapping overlap rejection, the recovery half: map two pages at `v`,
/// unmap them again, and mapping the two pages at `v + 1` through the
/// same handle is then owed success, with both of its pages mapped
/// afterwards. It holds whenever the page past the old mapping was
/// unmapped to begin with, the new range stays inside the user half,
/// and the allocator still holds a contiguous free run of two frames.
pub proof fn lemma_remap_after_unmap(
    o0: ObjectMap,
    o1: ObjectMap,
    o2: ObjectMap,
    o3: ObjectMap,
    f0: PhysicalMemoryManager,
    f1: PhysicalMemoryManager,
    f3: PhysicalMemoryManager,
    a: u64,
    v: u64,
    d: u64,
    r: u64,
)
    requires
        map_memory_step(o0, o1, f0, f1, a, v, 2, d, 0),
        unmap_memory_step(o1, o2, a, v, 2, 0),
        v + 3 <= USER_SPACE_TOP_PAGE,
        !o0.object_of(spec_handle_of_word(a))->AddressSpace_0.page_mapped(v + 2),
        exists|s: int| f1.free_run(s, 2),
        map_memory_step(o2, o3, f1, f3, a, (v + 1) as u64, 2, d, r),
    ensures
        r == 0,
        o3.object_of(spec_handle_of_word(a))->AddressSpace_0.page_mapped(v + 1),
        o3.object_of(spec_handle_of_word(a))->AddressSpace_0.page_mapped(v + 2),
{
    let h = spec_handle_of_word(a);
    let s0 = o0.object_of(h)->AddressSpace_0;
    // The first map returned success, so the handle resolved.
    assert(o0.valid_handle(h) && o0.object_of(h) is AddressSpace);
    let s1 = choose|s1: AddressSpace|
        {
            &&& o1.slots@ == o0.slots@.update(
                h.index as int,
                (Slot { generation: h.generation, object: Some(KernelObject::AddressSpace(s1)) }),
            )
            &&& s1.wf()
            &&& forall|p: int| s1.page_mapped(p) <==> (s0.page_mapped(p) || v <= p < v + 2)
        };
    assert(o1.valid_handle(h) && o1.object_of(h) == KernelObject::AddressSpace(s1));
    // The unmap returned success on the same handle.
    let s2 = choose|s2: AddressSpace|
        {
            &&& o2.slots@ == o1.slots@.update(
                h.index as int,
                (Slot { generation: h.generation, object: Some(KernelObject::AddressSpace(s2)) }),
            )
            &&& s2.wf()
            &&& forall|p: int| s2.page_mapped(p) <==> (s1.page_mapped(p) && !(v <= p < v + 2))
        };
    assert(o2.valid_handle(h) && o2.object_of(h) == KernelObject::AddressSpace(s2));
    // Nothing of the new range is left mapped: its first page was just
    // unmapped and its second was never mapped.
    assert forall|p: int| v + 1 <= p < (v + 1) + 2 implies !s2.page_mapped(p) by {
        if s2.page_mapped(p) {
            assert(s1.page_mapped(p) && !(v <= p < v + 2));
            assert(p == v + 2);
            assert(s0.page_mapped(v + 2));
        }
    }
    // So the third step's relation can only be its success branch.
    let s3 = choose|s3: AddressSpace|
        {
            &&& o3.slots@ == o2.slots@.update(
                h.index as int,
                (Slot { generation: h.generation, object: Some(KernelObject::AddressSpace(s3)) }),
            )
            &&& s3.wf()
            &&& forall|p: int|
                s3.page_mapped(p) <==> (s2.page_mapped(p) || v + 1 <= p < (v + 1) + 2)
        };
    assert(o3.object_of(h) == KernelObject::AddressSpace(s3));
    assert(s3.page_mapped(v + 1) && s3.page_mapped(v + 2));
}

/// Fault containment: killing one task leaves every other handle
/// resolving to exactly the object it resolved to before, while the dead
/// task itself stays resolvable, `Dead`, and otherwise unchanged.
pub proof fn lemma_fault_containment(o0: ObjectMap, o1: ObjectMap, h: Handle, other: Handle)
    requires
        kill_step(o0, o1, h),
        other.index != h.index,
    ensures
        o1.valid_handle(other) <==> o0.valid_handle(other),
        o0.valid_handle(other) ==> o1.object_of(other) == o0.object_of(other),
        o1.valid_handle(h),
        o1.object_of(h) matches KernelObject::Task(t1) && t1.state is Dead && (o0.object_of(h)
            matches KernelObject::Task(t0) && t1.address_space == t0.address_space
            && t1.entry_point == t0.entry_point),
{
    assert(o1.slots@[other.index as int] == o0.slots@[other.index as int]
        || other.index >= o0.slots@.len());
}

} // verus!
