use kernel_core::{AddressSpace, CpuState, EntryFlags, Frame, MappingError, Page};

fn flags() -> EntryFlags {
    EntryFlags {
        present: true,
        writable: true,
        no_execute: true,
        user_accessible: true,
        no_cache: false,
    }
}

fn pages(start: u64, end: u64) -> std::ops::Range<Page> {
    Page { number: start }..Page { number: end }
}

fn frames(start: u64, end: u64) -> std::ops::Range<Frame> {
    Frame { number: start }..Frame { number: end }
}

#[test]
fn overlapping_mapping_is_rejected() {
    let v = 100;
    let mut space = AddressSpace::from_page_table(Frame { number: 1 });
    space.map(pages(v, v + 2), frames(10, 12), flags()).unwrap();
    assert_eq!(
        space.map(pages(v + 1, v + 3), frames(20, 22), flags()),
        Err(MappingError::AlreadyMapped)
    );
    space.unmap(pages(v, v + 2)).unwrap();
    assert!(space.map(pages(v + 1, v + 3), frames(20, 22), flags()).is_ok());
}

#[test]
fn exact_duplicate_mapping_is_rejected() {
    let mut space = AddressSpace::from_page_table(Frame { number: 1 });
    space.map(pages(5, 7), frames(1, 3), flags()).unwrap();
    assert_eq!(
        space.map(pages(5, 7), frames(4, 6), flags()),
        Err(MappingError::AlreadyMapped)
    );
}

#[test]
fn range_leaving_the_user_half_is_rejected() {
    let mut space = AddressSpace::from_page_table(Frame { number: 1 });
    let top = kernel_core::USER_SPACE_TOP_PAGE;
    assert_eq!(
        space.map(pages(top - 1, top + 1), frames(0, 2), flags()),
        Err(MappingError::OutOfVirtualSpace)
    );
    // Exactly up to the boundary is fine.
    assert!(space.map(pages(top - 2, top), frames(0, 2), flags()).is_ok());
}

#[test]
fn unmap_requires_the_exact_range() {
    let mut space = AddressSpace::from_page_table(Frame { number: 1 });
    space.map(pages(40, 44), frames(8, 12), flags()).unwrap();
    assert_eq!(space.unmap(pages(40, 42)), Err(MappingError::NotMapped));
    assert_eq!(space.unmap(pages(41, 44)), Err(MappingError::NotMapped));
    assert_eq!(space.unmap(pages(50, 54)), Err(MappingError::NotMapped));
    assert!(space.unmap(pages(40, 44)).is_ok());
    assert_eq!(space.unmap(pages(40, 44)), Err(MappingError::NotMapped));
}

#[test]
fn disjoint_mappings_coexist() {
    let mut space = AddressSpace::from_page_table(Frame { number: 1 });
    space.map(pages(10, 12), frames(0, 2), flags()).unwrap();
    space.map(pages(12, 14), frames(2, 4), flags()).unwrap();
    space.map(pages(8, 10), frames(4, 6), flags()).unwrap();
    assert_eq!(space.mappings.len(), 3);
}

#[test]
fn empty_range_maps_as_a_no_op() {
    let mut space = AddressSpace::from_page_table(Frame { number: 1 });
    assert!(space.map(pages(10, 10), frames(0, 0), flags()).is_ok());
    assert_eq!(space.mappings.len(), 0);
}

#[test]
fn activation_installs_the_root() {
    let space = AddressSpace::from_page_table(Frame { number: 0x42 });
    let mut cpu = CpuState { active_root: Frame { number: 0 } };
    space.activate(&mut cpu);
    assert_eq!(cpu.active_root.number, 0x42);
}

#[test]
fn range_free_reports_overlap() {
    let mut space = AddressSpace::from_page_table(Frame { number: 1 });
    space.map(pages(20, 24), frames(0, 4), flags()).unwrap();
    assert!(space.range_free(pages(24, 30)));
    assert!(space.range_free(pages(10, 20)));
    assert!(!space.range_free(pages(23, 25)));
    assert!(!space.range_free(pages(20, 24)));
    assert!(space.range_free(pages(25, 25)));
}
