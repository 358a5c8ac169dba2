use kernel_core::{
    install_syscall_handler, ExceptionHandlers, GdtSelectors, InterruptController,
    InterruptModel, TrapTable, APIC_SPURIOUS_VECTOR, APIC_TIMER_VECTOR, BootError,
    DOUBLE_FAULT_VECTOR, PAGE_FAULT_VECTOR,
};

fn handlers() -> ExceptionHandlers {
    ExceptionHandlers {
        nmi: 0x100,
        breakpoint: 0x200,
        invalid_opcode: 0x300,
        general_protection_fault: 0x400,
        page_fault: 0x500,
        double_fault: 0x600,
    }
}

fn selectors() -> GdtSelectors {
    GdtSelectors {
        kernel_code: 0x08,
        kernel_data: 0x10,
        user_code: 0x28,
        user_compat_code: 0x1B,
        user_data: 0x20,
    }
}

#[test]
fn init_routes_the_fixed_layout() {
    let model = InterruptModel::Apic { local_apic_address: 0xFEE0_0000, also_has_legacy_pics: true };
    let controller = InterruptController::init(&model, &handlers(), 0x700, 0x800).unwrap();
    assert!(controller.enabled);
    assert!(controller.legacy_pic_disabled);
    assert_eq!(controller.local_apic_address, 0xFEE0_0000);
    assert_eq!(controller.table.entries[PAGE_FAULT_VECTOR as usize], Some(0x500));
    assert_eq!(controller.table.entries[DOUBLE_FAULT_VECTOR as usize], Some(0x600));
    assert_eq!(controller.table.entries[APIC_TIMER_VECTOR as usize], Some(0x700));
    assert_eq!(controller.table.entries[APIC_SPURIOUS_VECTOR as usize], Some(0x800));
}

#[test]
fn init_without_legacy_pics_leaves_them_alone() {
    let model = InterruptModel::Apic {
        local_apic_address: 0xFEE0_0000,
        also_has_legacy_pics: false,
    };
    let controller = InterruptController::init(&model, &handlers(), 0x700, 0x800).unwrap();
    assert!(!controller.legacy_pic_disabled);
}

#[test]
fn unsupported_interrupt_model_is_fatal() {
    let r = InterruptController::init(&InterruptModel::Unsupported, &handlers(), 0x700, 0x800);
    assert!(matches!(r, Err(BootError::UnsupportedInterruptModel)));
}

#[test]
fn device_handlers_are_confined_to_the_free_block() {
    let mut table = TrapTable::empty();
    assert!(table.register_device_handler(0x2F, 0x900).is_err());
    assert!(table.register_device_handler(0x30, 0x900).is_ok());
    assert!(table.register_device_handler(0xFD, 0x901).is_ok());
    assert!(table.register_device_handler(APIC_TIMER_VECTOR, 0x902).is_err());
    assert!(table.register_device_handler(APIC_SPURIOUS_VECTOR, 0x903).is_err());
    assert_eq!(table.entries[0x30], Some(0x900));
    assert_eq!(table.entries[0xFE], None);
}

#[test]
fn exception_handlers_are_confined_to_the_exception_block() {
    let mut table = TrapTable::empty();
    assert!(table.register_exception_handler(0x1F, 0xA00).is_ok());
    assert!(table.register_exception_handler(0x20, 0xA01).is_err());
}

#[test]
fn syscall_msr_values_are_exact() {
    let config = install_syscall_handler(&selectors(), 0xFFFF_8000_0010_0000);
    // Kernel code selector in bits 32..48, user compatibility selector
    // in bits 48..64.
    assert_eq!(config.star, 0x001B_0008_0000_0000);
    assert_eq!(config.lstar, 0xFFFF_8000_0010_0000);
    assert_eq!(config.fmask, 0);
}

#[test]
fn timer_needs_a_known_frequency() {
    let model = InterruptModel::Apic { local_apic_address: 0xFEE0_0000, also_has_legacy_pics: false };
    let mut controller = InterruptController::init(&model, &handlers(), 0x700, 0x800).unwrap();
    let config = controller.enable_local_timer(Some(1_000_000), 10).unwrap();
    assert_eq!(config.vector, APIC_TIMER_VECTOR);
    assert_eq!(config.ticks_per_period, 10_000);
    assert!(controller.enable_local_timer(None, 10).is_none());
}
