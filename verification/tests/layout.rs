use os_bootinfo::E820MemoryRegion;

#[test]
fn record_takes_24_bytes() {
    assert_eq!(os_bootinfo::layout::E820_RECORD_SIZE, 24);
    let record = E820MemoryRegion { start_addr: 0, len: 0, region_type: 0, acpi_extended_attributes: 0 };
    assert_eq!(record.to_bytes(), [0u8; 24]);
}

#[test]
fn fields_stand_at_their_offsets() {
    let record = E820MemoryRegion {
        start_addr: 0x0807_0605_0403_0201,
        len: 0x100f_0e0d_0c0b_0a09,
        region_type: 0x1413_1211,
        acpi_extended_attributes: 0x1817_1615,
    };
    let expected: [u8; 24] = [
        1, 2, 3, 4, 5, 6, 7, 8, 9, 10, 11, 12, 13, 14, 15, 16, 17, 18, 19, 20, 21, 22, 23, 24,
    ];
    assert_eq!(record.to_bytes(), expected);
    assert_eq!(E820MemoryRegion::from_bytes(&expected), record);
}

#[test]
fn usable_record_is_read_from_bytes() {
    let mut bytes = [0u8; 24];
    bytes[2] = 0x10;
    bytes[10] = 0x20;
    bytes[16] = 1;
    let record = E820MemoryRegion::from_bytes(&bytes);
    assert_eq!(
        record,
        E820MemoryRegion { start_addr: 0x100000, len: 0x200000, region_type: 1, acpi_extended_attributes: 0 }
    );
}

#[test]
fn bytes_agree_with_the_machine_encoding() {
    let record = E820MemoryRegion {
        start_addr: 0xdead_beef_0bad_f00d,
        len: u64::MAX - 5,
        region_type: 0xfedc_ba98,
        acpi_extended_attributes: 7,
    };
    let mut expected = Vec::new();
    expected.extend_from_slice(&record.start_addr.to_le_bytes());
    expected.extend_from_slice(&record.len.to_le_bytes());
    expected.extend_from_slice(&record.region_type.to_le_bytes());
    expected.extend_from_slice(&record.acpi_extended_attributes.to_le_bytes());
    assert_eq!(record.to_bytes().to_vec(), expected);
}

#[test]
fn records_survive_the_round_trip() {
    let values = [0u64, 1, 0xff, 0x100, 0xffff_ffff, 0x1_0000_0000, 0x100000, u64::MAX];
    for start_addr in values {
        for len in values {
            for code in [0u32, 1, 5, 0xff, 0x100, 0xffff, 0x1_0000, u32::MAX] {
                let record = E820MemoryRegion {
                    start_addr,
                    len,
                    region_type: code,
                    acpi_extended_attributes: !code,
                };
                assert_eq!(E820MemoryRegion::from_bytes(&record.to_bytes()), record);
            }
        }
    }
}

#[test]
fn bytes_survive_the_round_trip() {
    let mut bytes = [0u8; 24];
    for (index, byte) in bytes.iter_mut().enumerate() {
        *byte = (index as u8).wrapping_mul(37).wrapping_add(200);
    }
    assert_eq!(E820MemoryRegion::from_bytes(&bytes).to_bytes(), bytes);
    let full = [0xffu8; 24];
    let record = E820MemoryRegion::from_bytes(&full);
    assert_eq!(record.start_addr, u64::MAX);
    assert_eq!(record.len, u64::MAX);
    assert_eq!(record.region_type, u32::MAX);
    assert_eq!(record.acpi_extended_attributes, u32::MAX);
    assert_eq!(record.to_bytes(), full);
}
