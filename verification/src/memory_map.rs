//! The memory map reader: decodes the firmware-supplied memory descriptor
//! table into typed regions.
//!
//! The firmware reports memory as a raw byte buffer holding descriptors at a
//! fixed stride. Entry count is `size / descriptor_size`, computed once;
//! indexing multiplies by the stride and bounds-checks against the total
//! size, failing with an out-of-bounds error rather than reading past the
//! buffer. Traversal is finite and restartable and holds no mutable state in
//! the underlying map.

use vstd::prelude::*;
use vstd::arithmetic::div_mod::{lemma_div_is_ordered, lemma_div_multiples_vanish};
use vstd::arithmetic::mul::{lemma_mul_inequality, lemma_mul_is_distributive_add_other_way};
use vstd::bytes::{spec_u32_from_le_bytes, spec_u64_from_le_bytes, u32_from_le_bytes, u64_from_le_bytes};
use vstd::slice::slice_subrange;

verus! {

/// The number of encoded bytes a descriptor occupies: a 32-bit region-type
/// code, four bytes of padding for alignment, then four 64-bit fields.
pub const DESCRIPTOR_BYTES: usize = 40;

/// Type of a region of memory, as reported by the firmware.
///
/// The first sixteen variants carry the firmware's own region classes, in
/// the order of their encoded codes. The last three are the loader's own
/// carve-outs: the kernel image, the page tables built for the kernel, and
/// the boot-information block. Those let the kernel-phase allocator see
/// which regions the boot phase already owns.
#[derive(Clone, Copy, Debug, PartialEq, Eq, Structural)]
pub enum MemoryType {
    ReservedMemoryType,
    LoaderCode,
    LoaderData,
    BootServicesCode,
    BootServicesData,
    RuntimeServicesCode,
    RuntimeServicesData,
    ConventionalMemory,
    UnusableMemory,
    ACPIReclaimMemory,
    ACPIMemoryNVS,
    MemoryMappedIO,
    MemoryMappedIOPortSpace,
    PalCode,
    PersistentMemory,
    MaxMemoryType,
    PebbleKernelMemory,
    PebblePageTables,
    PebbleBootInformation,
}

/// The region type encoded by a firmware type code. Codes the reader does
/// not know are treated as reserved memory, so that nothing is ever
/// allocated out of a region the firmware did not plainly mark usable.
pub open spec fn spec_memory_type_from_code(code: u32) -> MemoryType {
    if code == 0 {
        MemoryType::ReservedMemoryType
    } else if code == 1 {
        MemoryType::LoaderCode
    } else if code == 2 {
        MemoryType::LoaderData
    } else if code == 3 {
        MemoryType::BootServicesCode
    } else if code == 4 {
        MemoryType::BootServicesData
    } else if code == 5 {
        MemoryType::RuntimeServicesCode
    } else if code == 6 {
        MemoryType::RuntimeServicesData
    } else if code == 7 {
        MemoryType::ConventionalMemory
    } else if code == 8 {
        MemoryType::UnusableMemory
    } else if code == 9 {
        MemoryType::ACPIReclaimMemory
    } else if code == 10 {
        MemoryType::ACPIMemoryNVS
    } else if code == 11 {
        MemoryType::MemoryMappedIO
    } else if code == 12 {
        MemoryType::MemoryMappedIOPortSpace
    } else if code == 13 {
        MemoryType::PalCode
    } else if code == 14 {
        MemoryType::PersistentMemory
    } else if code == 15 {
        MemoryType::MaxMemoryType
    } else if code == 0x8000_0000 {
        MemoryType::PebbleKernelMemory
    } else if code == 0x8000_0001 {
        MemoryType::PebblePageTables
    } else if code == 0x8000_0002 {
        MemoryType::PebbleBootInformation
    } else {
        MemoryType::ReservedMemoryType
    }
}

/// Decodes a firmware region-type code.
pub fn memory_type_from_code(code: u32) -> (r: MemoryType)
    ensures
        r == spec_memory_type_from_code(code),
{
    if code == 0 {
        MemoryType::ReservedMemoryType
    } else if code == 1 {
        MemoryType::LoaderCode
    } else if code == 2 {
        MemoryType::LoaderData
    } else if code == 3 {
        MemoryType::BootServicesCode
    } else if code == 4 {
        MemoryType::BootServicesData
    } else if code == 5 {
        MemoryType::RuntimeServicesCode
    } else if code == 6 {
        MemoryType::RuntimeServicesData
    } else if code == 7 {
        MemoryType::ConventionalMemory
    } else if code == 8 {
        MemoryType::UnusableMemory
    } else if code == 9 {
        MemoryType::ACPIReclaimMemory
    } else if code == 10 {
        MemoryType::ACPIMemoryNVS
    } else if code == 11 {
        MemoryType::MemoryMappedIO
    } else if code == 12 {
        MemoryType::MemoryMappedIOPortSpace
    } else if code == 13 {
        MemoryType::PalCode
    } else if code == 14 {
        MemoryType::PersistentMemory
    } else if code == 15 {
        MemoryType::MaxMemoryType
    } else if code == 0x8000_0000 {
        MemoryType::PebbleKernelMemory
    } else if code == 0x8000_0001 {
        MemoryType::PebblePageTables
    } else if code == 0x8000_0002 {
        MemoryType::PebbleBootInformation
    } else {
        MemoryType::ReservedMemoryType
    }
}

impl MemoryType {
    /// True of the regions the kernel-phase allocator may treat as free:
    /// conventional memory, plus the firmware's boot-services regions, which
    /// are reclaimable once boot services have been exited. Everything else
    /// is firmware-reserved, ACPI-reserved, or a loader/kernel carve-out
    /// that the boot phase already owns.
    pub open spec fn spec_is_usable(self) -> bool {
        self is ConventionalMemory || self is BootServicesCode || self is BootServicesData
    }

    /// Whether the kernel-phase allocator may treat a region of this type as
    /// free memory.
    pub fn is_usable(self) -> (r: bool)
        ensures
            r == self.spec_is_usable(),
    {
        match self {
            MemoryType::ConventionalMemory => true,
            MemoryType::BootServicesCode => true,
            MemoryType::BootServicesData => true,
            _ => false,
        }
    }
}

/// Describes a region of memory: one decoded descriptor-table entry.
#[derive(Clone, Copy, Debug, PartialEq, Eq, Structural)]
pub struct MemoryDescriptor {
    pub memory_type: MemoryType,
    pub physical_start: u64,
    pub virtual_start: u64,
    pub number_of_pages: u64,
    pub attribute: u64,
}

/// Describes the system's current memory configuration: a read-only view
/// over the raw descriptor table the firmware handed over.
#[derive(Debug)]
pub struct MemoryMap {
    /// The raw descriptor table.
    pub buffer: Vec<u8>,
    /// The stride between descriptors; at least `DESCRIPTOR_BYTES`, and
    /// possibly more, since the firmware may embed a larger record.
    pub descriptor_size: usize,
    /// The firmware's descriptor format version.
    pub descriptor_version: u32,
    /// The firmware's validity token for this snapshot of the map.
    pub key: usize,
    /// The total byte size of the table; never more than the buffer holds.
    pub size: usize,
}

/// An error from reading the memory map.
#[derive(Clone, Copy, Debug, PartialEq, Eq, Structural)]
pub enum MemoryMapError {
    /// An index at or past `num_entries` was asked for.
    OutOfBounds,
}

impl MemoryMap {
    /// Well-formedness: the stride covers a whole encoded descriptor and the
    /// declared total size does not run past the buffer.
    pub open spec fn wf(self) -> bool {
        &&& self.descriptor_size >= DESCRIPTOR_BYTES
        &&& self.size <= self.buffer@.len()
    }

    /// The number of whole descriptors the table holds.
    pub open spec fn spec_num_entries(self) -> int {
        self.size as int / self.descriptor_size as int
    }

    /// Whether the descriptor at position `index` lies wholly inside the
    /// declared table size.
    pub open spec fn entry_in_bounds(self, index: int) -> bool {
        0 <= index && (index + 1) * self.descriptor_size <= self.size
    }

    /// The descriptor decoded from the bytes at position `index`.
    pub open spec fn spec_entry(self, index: int) -> MemoryDescriptor {
        let off = index * self.descriptor_size;
        MemoryDescriptor {
            memory_type: spec_memory_type_from_code(
                spec_u32_from_le_bytes(self.buffer@.subrange(off, off + 4)),
            ),
            physical_start: spec_u64_from_le_bytes(self.buffer@.subrange(off + 8, off + 16)),
            virtual_start: spec_u64_from_le_bytes(self.buffer@.subrange(off + 16, off + 24)),
            number_of_pages: spec_u64_from_le_bytes(self.buffer@.subrange(off + 24, off + 32)),
            attribute: spec_u64_from_le_bytes(self.buffer@.subrange(off + 32, off + 40)),
        }
    }

    /// Entry count: total size over stride, rounded down.
    pub fn num_entries(&self) -> (r: usize)
        requires
            self.wf(),
        ensures
            r == self.spec_num_entries(),
    {
        self.size / self.descriptor_size
    }

    /// The descriptor at `index`, decoded from the raw table. Positions at
    /// or past `num_entries` are refused with an out-of-bounds error; the
    /// reader never returns partial or garbage data.
    pub fn index(&self, index: usize) -> (r: Result<MemoryDescriptor, MemoryMapError>)
        requires
            self.wf(),
        ensures
            r is Ok <==> index < self.spec_num_entries(),
            r matches Ok(d) ==> d == self.spec_entry(index as int),
            r matches Err(e) ==> e == MemoryMapError::OutOfBounds,
    {
        proof {
            lemma_index_in_bounds_iff_counted(*self, index as int);
        }
        if index >= self.num_entries() {
            return Err(MemoryMapError::OutOfBounds);
        }
        proof {
            lemma_mul_inequality(index as int, index as int + 1, self.descriptor_size as int);
            lemma_mul_is_distributive_add_other_way(
                self.descriptor_size as int,
                index as int,
                1,
            );
        }
        let off = index * self.descriptor_size;
        let bytes = self.buffer.as_slice();
        let code = u32_from_le_bytes(slice_subrange(bytes, off, off + 4));
        Ok(MemoryDescriptor {
            memory_type: memory_type_from_code(code),
            physical_start: u64_from_le_bytes(slice_subrange(bytes, off + 8, off + 16)),
            virtual_start: u64_from_le_bytes(slice_subrange(bytes, off + 16, off + 24)),
            number_of_pages: u64_from_le_bytes(slice_subrange(bytes, off + 24, off + 32)),
            attribute: u64_from_le_bytes(slice_subrange(bytes, off + 32, off + 40)),
        })
    }

    /// A fresh traversal over the table, starting at position zero.
    pub fn iter(&self) -> (r: MemoryMapIter<'_>)
        requires
            self.wf(),
        ensures
            r.cur_index == 0,
            r.memory_map == self,
    {
        MemoryMapIter::new(self)
    }
}

/// A position in one traversal of a memory map. Each traversal starts fresh
/// at position zero and leaves the underlying map untouched.
pub struct MemoryMapIter<'a> {
    pub cur_index: usize,
    pub memory_map: &'a MemoryMap,
}

impl<'a> MemoryMapIter<'a> {
    /// Starts a traversal at position zero.
    pub fn new(memory_map: &'a MemoryMap) -> (r: MemoryMapIter<'a>)
        requires
            memory_map.wf(),
        ensures
            r.cur_index == 0,
            r.memory_map == memory_map,
    {
        MemoryMapIter { cur_index: 0, memory_map }
    }

    /// The next descriptor, or `None` once `num_entries` descriptors have
    /// been yielded.
    pub fn next(&mut self) -> (r: Option<MemoryDescriptor>)
        requires
            old(self).memory_map.wf(),
        ensures
            final(self).memory_map == old(self).memory_map,
            old(self).cur_index < old(self).memory_map.spec_num_entries() ==> {
                &&& r matches Some(d) && d == old(self).memory_map.spec_entry(
                    old(self).cur_index as int,
                )
                &&& final(self).cur_index == old(self).cur_index + 1
            },
            old(self).cur_index >= old(self).memory_map.spec_num_entries() ==> {
                &&& r is None
                &&& final(self).cur_index == old(self).cur_index
            },
    {
        if self.cur_index < self.memory_map.num_entries() {
            let desc = match self.memory_map.index(self.cur_index) {
                Ok(desc) => desc,
                Err(_) => {
                    proof {
                        lemma_index_in_bounds_iff_counted(*self.memory_map, self.cur_index as int);
                    }
                    return None;
                },
            };
            self.cur_index = self.cur_index + 1;
            Some(desc)
        } else {
            None
        }
    }
}

/// For a table of total size `S` and stride `D`, the descriptor at position
/// `index` lies inside the table exactly when `index < S / D`: traversal
/// yields exactly `S / D` entries, and indexing at `S / D` is an
/// out-of-bounds error.
pub proof fn lemma_index_in_bounds_iff_counted(map: MemoryMap, index: int)
    requires
        map.wf(),
        index >= 0,
    ensures
        map.entry_in_bounds(index) <==> index < map.spec_num_entries(),
{
    let ds = map.descriptor_size as int;
    let size = map.size as int;
    if (index + 1) * ds <= size {
        lemma_div_is_ordered((index + 1) * ds, size, ds);
        lemma_div_multiples_vanish(index + 1, ds);
    }
    if index < size / ds {
        lemma_div_multiples_vanish(index + 1, ds);
        lemma_mul_inequality(index + 1, size / ds, ds);
        assert((size / ds) * ds <= size) by {
            vstd::arithmetic::div_mod::lemma_fundamental_div_mod(size, ds);
            vstd::arithmetic::div_mod::lemma_mod_bound(size, ds);
        }
    }
}

} // verus!
