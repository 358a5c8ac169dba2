use std::collections::BTreeMap;

use kernel_core::{
    drop_to_userboot, verify_boot_info, AddressSpace, BootError, BootInfo, BusDriverMessage,
    CpuState, Device, EcamAccess, Frame, FrameState, KernelObject, MemoryController, MemoryMap,
    ModuleMapping, ObjectMap, Payload, PciConfigRegion, PciConfigRegions, PhysicalMemoryManager,
    Platform, Property, TaskState, Tss, BOOT_INFO_MAGIC, FRAME_SIZE, PHYSICAL_MAP_BASE,
};

fn empty_memory_map() -> MemoryMap {
    let mut buffer = Vec::new();
    buffer.extend_from_slice(&7u32.to_le_bytes());
    buffer.extend_from_slice(&[0u8; 4]);
    buffer.extend_from_slice(&0u64.to_le_bytes());
    buffer.extend_from_slice(&0u64.to_le_bytes());
    buffer.extend_from_slice(&8u64.to_le_bytes());
    buffer.extend_from_slice(&0u64.to_le_bytes());
    let size = buffer.len();
    MemoryMap { buffer, descriptor_size: 40, descriptor_version: 1, key: 0, size }
}

fn controller() -> MemoryController {
    MemoryController {
        physical: PhysicalMemoryManager::from_memory_map(
            &empty_memory_map(),
            Frame { number: 0 },
            8,
        ),
        kernel_space: AddressSpace::from_page_table(Frame { number: 2 }),
        loaded_modules: vec![
            (
                "userboot".to_string(),
                ModuleMapping {
                    physical_start: 0x10000,
                    physical_end: 0x14000,
                    virtual_start: 0x4000,
                    virtual_end: 0x8000,
                },
            ),
        ],
    }
}

#[test]
fn placeholder_is_empty_until_boot_fills_it() {
    let platform = Platform::placeholder();
    assert!(platform.memory_controller.is_none());
    assert!(platform.gdt_selectors.is_none());
}

#[test]
fn boot_info_magic_is_checked() {
    let good = BootInfo {
        magic: BOOT_INFO_MAGIC,
        rsdp_address: None,
        payload: Payload { page_table_address: 0x8000, entry_point: 0x4000 },
    };
    assert!(verify_boot_info(&good).is_ok());
    let bad = BootInfo { magic: 0xDEAD, ..good };
    assert_eq!(verify_boot_info(&bad), Err(BootError::BadHandoffMagic));
}

#[test]
fn module_lookup_finds_by_name() {
    let mut platform = Platform::placeholder();
    platform.memory_controller = Some(controller());
    let mapping = platform.get_module_mapping("userboot").unwrap();
    assert_eq!(mapping.physical_start, 0x10000);
    assert_eq!(mapping.virtual_end, 0x8000);
    assert!(platform.get_module_mapping("missing").is_none());
}

#[test]
fn create_process_builds_a_ready_task() {
    let mut platform = Platform::placeholder();
    platform.memory_controller = Some(controller());
    let mut objects = ObjectMap::new(4);
    let handle = platform.create_process(&mut objects, 0x4000, 0x8000).unwrap();
    match objects.get(handle).unwrap() {
        KernelObject::Task(task) => {
            assert_eq!(task.state, TaskState::Ready);
            assert_eq!(task.entry_point, 0x4000);
            assert!(matches!(
                objects.get(task.address_space).unwrap(),
                KernelObject::AddressSpace(_)
            ));
        },
        KernelObject::AddressSpace(_) => panic!("expected a task"),
    }
}

#[test]
fn create_process_fails_without_frames() {
    let mut platform = Platform::placeholder();
    let mut full = controller();
    // Exhaust the eight usable frames.
    full.physical.allocate_n(8).unwrap();
    platform.memory_controller = Some(full);
    let mut objects = ObjectMap::new(4);
    assert!(platform.create_process(&mut objects, 0x4000, 0x8000).is_err());
}

#[test]
fn userboot_drop_builds_and_dispatches_the_first_task() {
    let mut objects = ObjectMap::new(4);
    let mut cpu = CpuState { active_root: Frame { number: 0 } };
    let boot_info = BootInfo {
        magic: BOOT_INFO_MAGIC,
        rsdp_address: Some(0xE_0000),
        payload: Payload { page_table_address: 0x8000, entry_point: 0x4000 },
    };
    let (task_handle, transition) = drop_to_userboot(&mut objects, &boot_info, &mut cpu);
    assert_eq!(cpu.active_root.number, 0x8000 / FRAME_SIZE);
    assert_eq!(transition.page_table_root.number, 0x8000 / FRAME_SIZE);
    assert_eq!(transition.instruction_pointer, 0x4000);
    assert_eq!(transition.flags, 0x200);
    match objects.get(task_handle).unwrap() {
        KernelObject::Task(task) => {
            assert_eq!(task.state, TaskState::Running);
            assert_eq!(task.entry_point, 0x4000);
        },
        KernelObject::AddressSpace(_) => panic!("expected a task"),
    }
}

#[test]
fn stacks_come_out_of_the_direct_mapping() {
    let mut c = controller();
    let stack = c.alloc_stack(1).unwrap();
    assert_eq!(stack.top - stack.bottom, FRAME_SIZE);
    assert!(stack.bottom >= PHYSICAL_MAP_BASE);
    // The backing frame is now accounted as allocated.
    assert_eq!(
        c.physical.states.iter().filter(|s| **s == FrameState::Allocated).count(),
        1
    );
    // Exhaustion reports None.
    c.physical.allocate_n(7).unwrap();
    assert!(c.alloc_stack(1).is_none());
}

#[test]
fn tss_records_its_stacks() {
    let mut tss = Tss::new();
    assert_eq!(tss.privilege_stack_table[0], 0);
    tss.set_kernel_stack(0xFFFF_9000_0000_0000);
    tss.set_interrupt_stack(kernel_core::DOUBLE_FAULT_IST_INDEX, 0xFFFF_9000_0001_0000);
    assert_eq!(tss.privilege_stack_table[0], 0xFFFF_9000_0000_0000);
    assert_eq!(tss.interrupt_stack_table[0], 0xFFFF_9000_0001_0000);
}

#[test]
fn ecam_addresses_are_computed_from_the_regions() {
    let regions = PciConfigRegions {
        regions: vec![
            PciConfigRegion {
                segment_group: 0,
                bus_start: 0,
                bus_end: 255,
                physical_address: 0xB000_0000,
            },
        ],
    };
    let access = EcamAccess::new(regions);
    assert!(access.function_exists(0, 0, 0, 0));
    assert!(!access.function_exists(1, 0, 0, 0));
    let address = access.0.physical_address(0, 1, 3, 2).unwrap();
    assert_eq!(address, 0xB000_0000 + 0x10_0000 + 3 * 0x8000 + 2 * 0x1000);
}

#[test]
fn first_matching_region_decides() {
    let regions = PciConfigRegions {
        regions: vec![
            PciConfigRegion {
                segment_group: 0,
                bus_start: 0,
                bus_end: 15,
                physical_address: 0xA000_0000,
            },
            PciConfigRegion {
                segment_group: 0,
                bus_start: 0,
                bus_end: 255,
                physical_address: 0xB000_0000,
            },
        ],
    };
    assert_eq!(regions.physical_address(0, 3, 0, 0), Some(0xA030_0000));
    assert_eq!(regions.physical_address(0, 16, 0, 0), Some(0xB100_0000));
    assert_eq!(regions.physical_address(2, 0, 0, 0), None);
}

#[test]
fn platform_bus_devices_carry_their_properties() {
    let mut properties = BTreeMap::new();
    properties.insert("pci.vendor_id".to_string(), Property::Integer(0x8086));
    properties.insert("pci.class".to_string(), Property::Integer(0x0C));
    properties.insert("pci.builtin".to_string(), Property::Bool(true));
    properties.insert("pci.name".to_string(), Property::String("xhci".to_string()));
    let device = Device::new(properties);
    assert_eq!(
        device.properties().get("pci.vendor_id"),
        Some(&Property::Integer(0x8086))
    );
    assert_eq!(device.properties().len(), 4);
    let message = BusDriverMessage::RegisterDevice("pci-0.0.0.0".to_string(), device);
    match message {
        BusDriverMessage::RegisterDevice(name, _) => assert_eq!(name, "pci-0.0.0.0"),
        _ => panic!("expected a device registration"),
    }
}
