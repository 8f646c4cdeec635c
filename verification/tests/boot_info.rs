use os_bootinfo::{BootError, BootInfo, E820MemoryRegion, MemoryRegion, MemoryRegionType, PhysAddr};

fn region(index: u64) -> MemoryRegion {
    let region_type = match index % 3 {
        0 => MemoryRegionType::Usable,
        1 => MemoryRegionType::Reserved,
        _ => MemoryRegionType::BadMemory,
    };
    MemoryRegion { start_addr: PhysAddr::new(index * 0x1000), len: 0x1000 + index, region_type }
}

#[test]
fn new_payload_is_empty() {
    let info = BootInfo::new();
    assert_eq!(info.len(), 0);
    assert!(info.as_slice().is_empty());
    assert!(info.memory_map.is_empty());
    assert_eq!(info.memory_map.capacity(), 32);
}

#[test]
fn push_appends_at_the_end() {
    let mut info = BootInfo::new();
    info.push(region(7));
    assert_eq!(info.len(), 1);
    assert_eq!(info.as_slice(), &[region(7)]);
    info.push(region(3));
    assert_eq!(info.len(), 2);
    assert_eq!(info.as_slice(), &[region(7), region(3)]);
}

#[test]
fn thirty_two_regions_fit_in_order() {
    let mut info = BootInfo::new();
    let mut expected = Vec::new();
    for index in 0..32 {
        assert_eq!(info.len(), index as usize);
        info.push(region(index));
        expected.push(region(index));
    }
    assert_eq!(info.len(), 32);
    assert_eq!(info.as_slice(), expected.as_slice());
    assert!(info.memory_map.is_full());
}

#[test]
fn the_thirty_third_region_is_refused() {
    let mut info = BootInfo::new();
    let mut expected = Vec::new();
    for index in 0..32 {
        assert_eq!(info.try_push(region(index)), Ok(()));
        expected.push(region(index));
    }
    assert_eq!(info.try_push(region(32)), Err(BootError::CapacityExceeded));
    assert_eq!(info.len(), 32);
    assert_eq!(info.as_slice(), expected.as_slice());
    assert_eq!(info.try_push(region(33)), Err(BootError::CapacityExceeded));
    assert_eq!(info.as_slice(), expected.as_slice());
}

#[test]
fn equal_regions_are_all_kept() {
    let mut info = BootInfo::new();
    for _ in 0..5 {
        info.push(region(1));
    }
    assert_eq!(info.len(), 5);
    assert!(info.as_slice().iter().all(|r| *r == region(1)));
}

#[test]
fn regions_are_not_sorted() {
    let mut info = BootInfo::new();
    for index in [9u64, 2, 30, 2, 0] {
        info.push(region(index));
    }
    assert_eq!(info.as_slice(), &[region(9), region(2), region(30), region(2), region(0)]);
}

#[test]
fn capacity_is_thirty_two() {
    assert_eq!(os_bootinfo::boot_info::MEMORY_MAP_CAPACITY, 32);
}

#[test]
fn firmware_records_become_the_memory_map() {
    let records = [
        E820MemoryRegion { start_addr: 0, len: 0x9fc00, region_type: 1, acpi_extended_attributes: 0 },
        E820MemoryRegion { start_addr: 0x9fc00, len: 0x400, region_type: 2, acpi_extended_attributes: 0 },
        E820MemoryRegion { start_addr: 0x100000, len: 0x7ee0000, region_type: 1, acpi_extended_attributes: 1 },
        E820MemoryRegion { start_addr: 0x7fe0000, len: 0x20000, region_type: 3, acpi_extended_attributes: 1 },
    ];
    let mut info = BootInfo::new();
    for record in records {
        info.push(MemoryRegion::from(record));
    }
    let map = info.as_slice();
    assert_eq!(map.len(), 4);
    assert_eq!(map[0].region_type, MemoryRegionType::Usable);
    assert_eq!(map[1].region_type, MemoryRegionType::Reserved);
    assert_eq!(map[2].start_addr.as_u64(), 0x100000);
    assert_eq!(map[2].len, 0x7ee0000);
    assert_eq!(map[3].region_type, MemoryRegionType::AcpiReclaimable);
}
