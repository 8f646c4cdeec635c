use os_bootinfo::{MemoryRegion, MemoryRegionType, PhysAddr};

#[test]
fn regions_with_equal_fields_are_equal() {
    let a = MemoryRegion {
        start_addr: PhysAddr::new(0x100000),
        len: 0x200000,
        region_type: MemoryRegionType::Usable,
    };
    let b = MemoryRegion {
        start_addr: PhysAddr::new(0x100000),
        len: 0x200000,
        region_type: MemoryRegionType::Usable,
    };
    assert_eq!(a, b);
    assert!(a == b);
}

#[test]
fn regions_differ_when_a_field_differs() {
    let a = MemoryRegion {
        start_addr: PhysAddr::new(0x100000),
        len: 0x200000,
        region_type: MemoryRegionType::Usable,
    };
    assert_ne!(a, MemoryRegion { start_addr: PhysAddr::new(0x100001), ..a });
    assert_ne!(a, MemoryRegion { len: 0x200001, ..a });
    assert_ne!(a, MemoryRegion { region_type: MemoryRegionType::InUse, ..a });
}

#[test]
fn a_copy_is_independent() {
    let first = MemoryRegion {
        start_addr: PhysAddr::new(0x100000),
        len: 0x200000,
        region_type: MemoryRegionType::Usable,
    };
    let mut copy = first;
    assert_eq!(copy, first);
    copy.len = 0x1000;
    copy.region_type = MemoryRegionType::InUse;
    copy.start_addr = PhysAddr::new(0x300000);
    assert_eq!(first.len, 0x200000);
    assert_eq!(first.region_type, MemoryRegionType::Usable);
    assert_eq!(first.start_addr.as_u64(), 0x100000);
    assert_eq!(copy.len, 0x1000);
    let cloned = first.clone();
    assert_eq!(cloned, first);
}

#[test]
fn the_six_region_types_are_distinct() {
    let all = [
        MemoryRegionType::Usable,
        MemoryRegionType::InUse,
        MemoryRegionType::Reserved,
        MemoryRegionType::AcpiReclaimable,
        MemoryRegionType::AcpiNvs,
        MemoryRegionType::BadMemory,
    ];
    for (i, a) in all.iter().enumerate() {
        for (j, b) in all.iter().enumerate() {
            assert_eq!(a == b, i == j);
        }
    }
}

#[test]
fn address_keeps_its_value() {
    assert_eq!(PhysAddr::new(0).as_u64(), 0);
    assert_eq!(PhysAddr::new(0x100000).as_u64(), 0x100000);
    assert_eq!(PhysAddr::new((1 << 52) - 1).as_u64(), (1 << 52) - 1);
    assert_eq!(PhysAddr::new(0x1234), PhysAddr::new(0x1234));
    assert_ne!(PhysAddr::new(0x1234), PhysAddr::new(0x1235));
}

#[test]
fn address_is_validated() {
    assert_eq!(PhysAddr::try_new(0), Some(PhysAddr::new(0)));
    assert_eq!(PhysAddr::try_new((1 << 52) - 1).map(|a| a.as_u64()), Some((1 << 52) - 1));
    assert_eq!(PhysAddr::try_new(1 << 52), None);
    assert_eq!(PhysAddr::try_new(1 << 63), None);
    assert_eq!(PhysAddr::try_new(u64::MAX), None);
    assert_eq!(os_bootinfo::addr::PHYS_ADDR_END, 1 << 52);
}

#[test]
fn address_agrees_with_x86_64() {
    for raw in [0u64, 1, 0xfff, 0x100000, (1 << 52) - 1] {
        assert_eq!(PhysAddr::new(raw).as_u64(), x86_64::PhysAddr::new(raw).as_u64());
    }
    for raw in [1u64 << 52, (1 << 52) + 1, 1 << 60, u64::MAX] {
        assert!(x86_64::PhysAddr::try_new(raw).is_err());
        assert!(PhysAddr::try_new(raw).is_none());
    }
}
