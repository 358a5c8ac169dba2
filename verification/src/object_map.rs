//! The capability object map: the single source of truth mapping opaque
//! handles to kernel-owned objects.
//!
//! A handle is a {slot index, generation} pair and is the only way to name
//! a kernel object; possessing a valid one is both the identifier and the
//! authorization to operate on the object. A handle is valid exactly when
//! its slot is occupied and its generation equals the slot's current
//! generation. Removing an object frees its slot and increments the slot's
//! generation unconditionally, so every handle issued before the removal
//! stays invalid even when the slot is reused at once. Exhausting a slot's
//! generation counter wraps it around; that a handle could be forged across
//! a full wrap of the counter is an accepted design limit, not handled
//! specially.
//!
//! Concurrency discipline: held object references are read locks;
//! `insert` and `remove` take exclusive access, so validity checks are
//! linearizable with respect to them.

use vstd::prelude::*;
use crate::address_space::AddressSpace;
use crate::error::HandleError;
use crate::task::Task;

verus! {

/// A slot index inside the object map.
pub type Index = u16;

/// A per-slot reuse counter.
pub type Generation = u16;

/// The most slots the map can hold: every index the fixed-width handle
/// can express.
pub const MAX_SLOTS: usize = 0x1_0000;

/// The generation a freshly created slot carries.
pub const FIRST_GENERATION: Generation = 1;

/// An opaque name for a kernel object: a slot index paired with the
/// generation the slot had when the object was stored.
#[derive(Clone, Copy, Debug, PartialEq, Eq, Structural)]
pub struct Handle {
    pub index: Index,
    pub generation: Generation,
}

/// A handle as user code sees it across the syscall boundary: the same
/// pair of fixed-width integers, exposed as an opaque identifier type.
#[derive(Clone, Copy, Debug, PartialEq, Eq, Structural)]
pub struct ProcessId {
    pub index: Index,
    pub generation: Generation,
}

impl ProcessId {
    /// The user-side name of a kernel handle.
    pub fn from_handle(handle: Handle) -> (r: ProcessId)
        ensures
            r.index == handle.index,
            r.generation == handle.generation,
    {
        ProcessId { index: handle.index, generation: handle.generation }
    }

    /// The kernel handle a user-supplied identifier claims to name. The
    /// claim is only honored if the object map still validates it.
    pub fn to_handle(self) -> (r: Handle)
        ensures
            r.index == self.index,
            r.generation == self.generation,
    {
        Handle { index: self.index, generation: self.generation }
    }
}

/// A kernel-owned object. Exactly one object-map slot owns each instance.
#[derive(Clone, Debug, PartialEq, Eq)]
pub enum KernelObject {
    AddressSpace(AddressSpace),
    Task(Task),
}

/// One object-map slot: its current generation and, when occupied, the
/// object it owns.
pub struct Slot {
    pub generation: Generation,
    pub object: Option<KernelObject>,
}

/// A kernel object sound enough to store: an address space upholds its
/// own well-formedness; a task carries no invariant of its own.
pub open spec fn wf_object(o: KernelObject) -> bool {
    match o {
        KernelObject::AddressSpace(s) => s.wf(),
        KernelObject::Task(_) => true,
    }
}

/// The successor of a generation, wrapping at the counter's width.
pub open spec fn spec_next_generation(g: Generation) -> Generation {
    if g == 0xFFFF {
        0
    } else {
        (g + 1) as Generation
    }
}

/// The mapping from slot index to (generation, object).
pub struct ObjectMap {
    pub slots: Vec<Slot>,
}

impl ObjectMap {
    /// Well-formedness: no more slots than a handle's index can name.
    pub open spec fn wf(self) -> bool {
        self.slots@.len() <= MAX_SLOTS
    }

    /// Every stored object is sound: the system-wide invariant the trap
    /// boundary maintains across every operation.
    pub open spec fn wf_objects(self) -> bool {
        forall|k: int|
            0 <= k < self.slots@.len() && (#[trigger] self.slots@[k]).object is Some ==> wf_object(
                self.slots@[k].object.unwrap(),
            )
    }

    /// A handle is valid exactly when its slot is occupied and its
    /// generation equals the slot's current generation.
    pub open spec fn valid_handle(self, h: Handle) -> bool {
        &&& h.index < self.slots@.len()
        &&& self.slots@[h.index as int].object is Some
        &&& self.slots@[h.index as int].generation == h.generation
    }

    /// The object a valid handle resolves to.
    pub open spec fn object_of(self, h: Handle) -> KernelObject {
        self.slots@[h.index as int].object.unwrap()
    }

    /// Builds a map with `capacity` free slots, each at its first
    /// generation.
    pub fn new(capacity: usize) -> (r: ObjectMap)
        requires
            capacity <= MAX_SLOTS,
        ensures
            r.wf(),
            r.slots@.len() == capacity,
            forall|k: int| 0 <= k < capacity ==> #[trigger] r.slots@[k] == (Slot {
                generation: FIRST_GENERATION,
                object: None,
            }),
            forall|h: Handle| !r.valid_handle(h),
    {
        let mut slots: Vec<Slot> = Vec::new();
        let mut k: usize = 0;
        while k < capacity
            invariant
                k <= capacity,
                slots@.len() == k,
                forall|j: int| 0 <= j < k ==> #[trigger] slots@[j] == (Slot {
                    generation: FIRST_GENERATION,
                    object: None,
                }),
            decreases capacity - k,
        {
            slots.push(Slot { generation: FIRST_GENERATION, object: None });
            k = k + 1;
        }
        ObjectMap { slots }
    }

    /// Stores an object in the lowest free slot — reusing low indices
    /// bounds table growth — or grows the table by one slot when none is
    /// free. The returned handle carries the slot's current generation.
    /// Fails only when every expressible slot index is occupied.
    pub fn insert(&mut self, object: KernelObject) -> (r: Result<Handle, HandleError>)
        requires
            old(self).wf(),
        ensures
            final(self).wf(),
            r is Ok <==> (old(self).slots@.len() < MAX_SLOTS || exists|k: int|
                0 <= k < old(self).slots@.len() && (#[trigger] old(self).slots@[k]).object
                    is None),
            r matches Ok(h) ==> {
                &&& final(self).valid_handle(h)
                &&& final(self).object_of(h) == object
                &&& forall|k: int|
                    0 <= k < h.index ==> (#[trigger] old(self).slots@[k]).object is Some
                &&& insert_step(*old(self), *final(self), object, h)
            },
            r matches Err(e) ==> e == HandleError::InvalidHandle && *final(self) == *old(self),
    {
        let count = self.slots.len();
        let mut k: usize = 0;
        while k < count
            invariant
                *self == *old(self),
                count == self.slots@.len(),
                old(self).wf(),
                k <= count,
                forall|j: int| 0 <= j < k ==> (#[trigger] self.slots@[j]).object is Some,
            decreases count - k,
        {
            let free = match &self.slots[k].object {
                Option::None => true,
                Option::Some(_) => false,
            };
            if free {
                let generation = self.slots[k].generation;
                self.slots.set(k, Slot { generation, object: Some(object) });
                let handle = Handle { index: k as Index, generation };
                return Ok(handle);
            }
            k = k + 1;
        }
        if count < MAX_SLOTS {
            self.slots.push(Slot { generation: FIRST_GENERATION, object: Some(object) });
            let handle = Handle { index: count as Index, generation: FIRST_GENERATION };
            return Ok(handle);
        }
        Err(HandleError::InvalidHandle)
    }

    /// Resolves a handle to a shared reference on its object. Fails with
    /// `InvalidHandle` when the slot is unoccupied or the generation is
    /// stale — the single mechanism preventing use of a handle after its
    /// referent was destroyed and the slot reused.
    pub fn get(&self, handle: Handle) -> (r: Result<&KernelObject, HandleError>)
        ensures
            r is Ok <==> self.valid_handle(handle),
            r matches Ok(o) ==> *o == self.object_of(handle),
            r matches Err(e) ==> e == HandleError::InvalidHandle,
    {
        let index = handle.index as usize;
        if index >= self.slots.len() {
            return Err(HandleError::InvalidHandle);
        }
        let slot = &self.slots[index];
        if slot.generation != handle.generation {
            return Err(HandleError::InvalidHandle);
        }
        match &slot.object {
            Option::Some(object) => Ok(object),
            Option::None => Err(HandleError::InvalidHandle),
        }
    }

    /// Resolves a handle to an exclusive reference on its object.
    pub fn get_mut(&mut self, handle: Handle) -> (r: Result<&mut KernelObject, HandleError>)
        ensures
            r is Ok <==> old(self).valid_handle(handle),
            r matches Ok(o) ==> {
                &&& *o == old(self).object_of(handle)
                &&& final(self).slots@ == old(self).slots@.update(
                    handle.index as int,
                    Slot { generation: handle.generation, object: Some(*final(o)) },
                )
            },
            r matches Err(e) ==> e == HandleError::InvalidHandle && *final(self) == *old(self),
    {
        let index = handle.index as usize;
        if index >= self.slots.len() {
            return Err(HandleError::InvalidHandle);
        }
        let generation = self.slots[index].generation;
        if generation != handle.generation {
            return Err(HandleError::InvalidHandle);
        }
        let occupied = match &self.slots[index].object {
            Option::Some(_) => true,
            Option::None => false,
        };
        if !occupied {
            return Err(HandleError::InvalidHandle);
        }
        let slot = &mut self.slots[index];
        match &mut slot.object {
            Option::Some(object) => Ok(object),
            Option::None => vstd::pervasive::unreached(),
        }
    }

    /// Takes the object out of a valid handle's slot, frees the slot, and
    /// increments its generation unconditionally — even if the slot is
    /// reused by the very next insert — so all previously issued handles
    /// to the slot become invalid. A stale or unoccupied handle fails
    /// with `InvalidHandle` and changes nothing.
    pub fn remove(&mut self, handle: Handle) -> (r: Result<KernelObject, HandleError>)
        requires
            old(self).wf(),
        ensures
            final(self).wf(),
            r is Ok <==> old(self).valid_handle(handle),
            r matches Ok(o) ==> o == old(self).object_of(handle) && remove_step(
                *old(self),
                *final(self),
                handle,
            ),
            r matches Err(e) ==> e == HandleError::InvalidHandle && *final(self) == *old(self),
    {
        let index = handle.index as usize;
        if index >= self.slots.len() {
            return Err(HandleError::InvalidHandle);
        }
        let generation = self.slots[index].generation;
        if generation != handle.generation {
            return Err(HandleError::InvalidHandle);
        }
        let occupied = match &self.slots[index].object {
            Option::Some(_) => true,
            Option::None => false,
        };
        if !occupied {
            return Err(HandleError::InvalidHandle);
        }
        let next = if generation == 0xFFFF {
            0
        } else {
            generation + 1
        };
        let taken = self.slots.remove(index);
        self.slots.insert(index, Slot { generation: next, object: None });
        proof {
            assert(self.slots@ =~= old(self).slots@.update(
                index as int,
                (Slot { generation: next, object: None }),
            ));
        }
        match taken.object {
            Option::Some(object) => Ok(object),
            Option::None => vstd::pervasive::unreached(),
        }
    }
}

/// One successful `remove` step: the handle was valid in `pre`; in `post`
/// its slot is free with the generation advanced, and no other slot moved.
pub open spec fn remove_step(pre: ObjectMap, post: ObjectMap, h: Handle) -> bool {
    &&& pre.valid_handle(h)
    &&& post.slots@.len() == pre.slots@.len()
    &&& post.slots@[h.index as int].object is None
    &&& post.slots@[h.index as int].generation == spec_next_generation(h.generation)
    &&& forall|k: int|
        0 <= k < pre.slots@.len() && k != h.index ==> #[trigger] post.slots@[k] == pre.slots@[k]
}

/// One successful `insert` step: `h` names a slot that was free (or newly
/// grown), now owns `object` under the slot's current generation, and no
/// other slot moved.
pub open spec fn insert_step(pre: ObjectMap, post: ObjectMap, object: KernelObject, h: Handle) -> bool {
    &&& post.slots@.len() == if h.index < pre.slots@.len() {
        pre.slots@.len()
    } else {
        pre.slots@.len() + 1
    }
    &&& h.index <= pre.slots@.len()
    &&& (h.index < pre.slots@.len() ==> pre.slots@[h.index as int].object is None
        && h.generation == pre.slots@[h.index as int].generation)
    &&& (h.index == pre.slots@.len() ==> h.generation == FIRST_GENERATION)
    &&& post.slots@[h.index as int].object == Some(object)
    &&& post.slots@[h.index as int].generation == h.generation
    &&& forall|k: int|
        0 <= k < pre.slots@.len() && k != h.index ==> #[trigger] post.slots@[k] == pre.slots@[k]
}

/// Inserting a sound object keeps every stored object sound.
pub proof fn lemma_insert_preserves_wf_objects(
    o0: ObjectMap,
    o1: ObjectMap,
    object: KernelObject,
    h: Handle,
)
    requires
        o0.wf_objects(),
        insert_step(o0, o1, object, h),
        wf_object(object),
    ensures
        o1.wf_objects(),
{
    assert forall|k: int|
        0 <= k < o1.slots@.len() && (#[trigger] o1.slots@[k]).object is Some implies wf_object(
        o1.slots@[k].object.unwrap(),
    ) by {
        if k != h.index as int {
            assert(o1.slots@[k] == o0.slots@[k]);
        }
    }
}

/// Handle generation safety: removing an object and then inserting
/// another leaves every handle issued before the removal invalid — even
/// when the new object lands in the very slot just freed — while the new
/// handle resolves to the new object.
pub proof fn lemma_handle_generation_safety(
    m0: ObjectMap,
    m1: ObjectMap,
    m2: ObjectMap,
    h1: Handle,
    h2: Handle,
    object: KernelObject,
)
    requires
        remove_step(m0, m1, h1),
        insert_step(m1, m2, object, h2),
        m1.wf(),
    ensures
        !m1.valid_handle(h1),
        !m2.valid_handle(h1),
        m2.valid_handle(h2),
        m2.object_of(h2) == object,
{
    assert(spec_next_generation(h1.generation) != h1.generation);
    if h2.index == h1.index {
        assert(m2.slots@[h1.index as int].generation == spec_next_generation(h1.generation));
    } else {
        assert(m2.slots@[h1.index as int] == m1.slots@[h1.index as int]);
    }
}

} // verus!
