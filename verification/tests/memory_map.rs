use kernel_core::{MemoryMap, MemoryMapError, MemoryMapIter, MemoryType};

/// Appends one encoded descriptor: type code, padding, then the four
/// 64-bit fields, padded out to `stride` bytes.
fn push_descriptor(
    buffer: &mut Vec<u8>,
    stride: usize,
    type_code: u32,
    physical_start: u64,
    virtual_start: u64,
    number_of_pages: u64,
    attribute: u64,
) {
    let start = buffer.len();
    buffer.extend_from_slice(&type_code.to_le_bytes());
    buffer.extend_from_slice(&[0u8; 4]);
    buffer.extend_from_slice(&physical_start.to_le_bytes());
    buffer.extend_from_slice(&virtual_start.to_le_bytes());
    buffer.extend_from_slice(&number_of_pages.to_le_bytes());
    buffer.extend_from_slice(&attribute.to_le_bytes());
    while buffer.len() < start + stride {
        buffer.push(0);
    }
}

fn three_entry_map(stride: usize) -> MemoryMap {
    let mut buffer = Vec::new();
    push_descriptor(&mut buffer, stride, 7, 0x1000, 0, 16, 0xF);
    push_descriptor(&mut buffer, stride, 0, 0x20000, 0, 4, 0);
    push_descriptor(&mut buffer, stride, 0x8000_0001, 0x40000, 0, 8, 1);
    let size = buffer.len();
    MemoryMap { buffer, descriptor_size: stride, descriptor_version: 1, key: 42, size }
}

#[test]
fn entry_count_is_size_over_stride() {
    let map = three_entry_map(48);
    assert_eq!(map.num_entries(), 3);
}

#[test]
fn indexing_at_entry_count_is_out_of_bounds() {
    let map = three_entry_map(48);
    assert!(map.index(2).is_ok());
    assert_eq!(map.index(3), Err(MemoryMapError::OutOfBounds));
    assert_eq!(map.index(100), Err(MemoryMapError::OutOfBounds));
}

#[test]
fn decoded_fields_are_exact() {
    let map = three_entry_map(48);
    let first = map.index(0).unwrap();
    assert_eq!(first.memory_type, MemoryType::ConventionalMemory);
    assert_eq!(first.physical_start, 0x1000);
    assert_eq!(first.virtual_start, 0);
    assert_eq!(first.number_of_pages, 16);
    assert_eq!(first.attribute, 0xF);
    let third = map.index(2).unwrap();
    assert_eq!(third.memory_type, MemoryType::PebblePageTables);
    assert_eq!(third.physical_start, 0x40000);
    assert_eq!(third.number_of_pages, 8);
    assert_eq!(third.attribute, 1);
}

#[test]
fn iteration_yields_exactly_the_entry_count() {
    let map = three_entry_map(48);
    let mut iter = map.iter();
    let mut count = 0;
    while let Some(_) = iter.next() {
        count += 1;
    }
    assert_eq!(count, 3);
    assert!(iter.next().is_none());
}

#[test]
fn traversal_is_restartable() {
    let map = three_entry_map(48);
    let mut first_pass = map.iter();
    while first_pass.next().is_some() {}
    let mut second_pass = MemoryMapIter::new(&map);
    let first = second_pass.next().unwrap();
    assert_eq!(first.physical_start, 0x1000);
}

#[test]
fn minimal_stride_decodes_too() {
    let map = three_entry_map(40);
    assert_eq!(map.num_entries(), 3);
    assert_eq!(map.index(1).unwrap().memory_type, MemoryType::ReservedMemoryType);
    assert_eq!(map.index(1).unwrap().physical_start, 0x20000);
}

#[test]
fn trailing_partial_descriptor_is_not_counted() {
    let mut map = three_entry_map(48);
    // Declare a size that ends inside a fourth descriptor.
    map.buffer.extend_from_slice(&[0u8; 20]);
    map.size = 48 * 3 + 20;
    assert_eq!(map.num_entries(), 3);
    assert_eq!(map.index(3), Err(MemoryMapError::OutOfBounds));
}

#[test]
fn unknown_type_codes_read_as_reserved() {
    let stride = 48;
    let mut buffer = Vec::new();
    push_descriptor(&mut buffer, stride, 0x1234, 0, 0, 1, 0);
    push_descriptor(&mut buffer, stride, 0x8000_0003, 0, 0, 1, 0);
    let size = buffer.len();
    let map = MemoryMap { buffer, descriptor_size: stride, descriptor_version: 1, key: 0, size };
    assert_eq!(map.index(0).unwrap().memory_type, MemoryType::ReservedMemoryType);
    assert_eq!(map.index(1).unwrap().memory_type, MemoryType::ReservedMemoryType);
}

#[test]
fn usable_region_types() {
    assert!(MemoryType::ConventionalMemory.is_usable());
    assert!(MemoryType::BootServicesCode.is_usable());
    assert!(MemoryType::BootServicesData.is_usable());
    assert!(!MemoryType::LoaderData.is_usable());
    assert!(!MemoryType::ACPIReclaimMemory.is_usable());
    assert!(!MemoryType::PebbleKernelMemory.is_usable());
    assert!(!MemoryType::PebblePageTables.is_usable());
    assert!(!MemoryType::PebbleBootInformation.is_usable());
    assert!(!MemoryType::ReservedMemoryType.is_usable());
}

#[test]
fn empty_map_has_no_entries() {
    let map = MemoryMap {
        buffer: Vec::new(),
        descriptor_size: 48,
        descriptor_version: 1,
        key: 0,
        size: 0,
    };
    assert_eq!(map.num_entries(), 0);
    assert_eq!(map.index(0), Err(MemoryMapError::OutOfBounds));
    let mut iter = map.iter();
    assert!(iter.next().is_none());
}
