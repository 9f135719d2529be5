use asyncos::acpi::madt::{
    IOAPIC, InterruptSourceOverride, MADT, MADTEntry, MADTEntryIterator, MADTEntryType, Processor,
};
use asyncos::acpi::table::SystemTable;
use asyncos::memory::physical::PhysicalMemory;

const TABLE: u64 = 0x7FFE_0000;

/// The bytes of a MADT whose entry stream is `entries` and whose declared length covers
/// exactly the fixed part and the stream.
fn madt_bytes(entries: &[u8]) -> Vec<u8> {
    let mut table = vec![0u8; 44];
    table[0..4].copy_from_slice(b"APIC");
    table[4..8].copy_from_slice(&((44 + entries.len()) as u32).to_le_bytes());
    table[36..40].copy_from_slice(&0xFEE0_0000u32.to_le_bytes());
    table[40..44].copy_from_slice(&1u32.to_le_bytes());
    table.extend_from_slice(entries);
    table
}

fn drain(mut entries: MADTEntryIterator) -> Vec<MADTEntry> {
    let mut all = Vec::new();
    while let Some(entry) = entries.next() {
        all.push(entry);
    }
    assert_eq!(entries.next(), None);
    assert_eq!(entries.next(), None);
    all
}

fn decode(entries: &[u8]) -> Vec<MADTEntry> {
    let table = madt_bytes(entries);
    let mem = PhysicalMemory::new(TABLE, &table).unwrap();
    let madt = MADT::from_memory(&mem, TABLE).unwrap();
    drain(madt.entries(&mem))
}

const PROCESSOR: [u8; 8] = [0, 8, 1, 2, 1, 0, 0, 0];
const IO_APIC: [u8; 12] = [1, 12, 3, 0, 0x00, 0x00, 0xC0, 0xFE, 0x18, 0, 0, 0];
const OVERRIDE: [u8; 10] = [2, 10, 0, 9, 0x14, 0, 0, 0, 0x0D, 0x00];

fn processor() -> MADTEntry {
    MADTEntry::Processor(Processor { acpi_id: 1, apic_id: 2, flags: 1 })
}

fn io_apic() -> MADTEntry {
    MADTEntry::IOAPIC(IOAPIC { apic_id: 3, address: 0xFEC0_0000, interrupt_base: 0x18 })
}

fn interrupt_override() -> MADTEntry {
    MADTEntry::InterruptSourceOverride(InterruptSourceOverride {
        bus_source: 0,
        irq_source: 9,
        interrupt: 0x14,
        flags: 0x000D,
    })
}

#[test]
fn fixed_part_is_decoded_from_its_offsets() {
    let table = madt_bytes(&[]);
    let mem = PhysicalMemory::new(TABLE, &table).unwrap();
    let madt = MADT::from_memory(&mem, TABLE).unwrap();
    assert_eq!(madt.header.address, TABLE);
    assert_eq!(madt.header.signature, *b"APIC");
    assert_eq!(madt.header.length, 44);
    assert_eq!(madt.controller_address, 0xFEE0_0000);
    assert_eq!(madt.flags, 1);
    assert_eq!(madt.raw_header(), TABLE);
    assert_eq!(*madt.header(), madt.header);
    assert_eq!(MADT::from_memory(&mem, TABLE + 1), None);
}

#[test]
fn single_enabled_processor() {
    let entries = decode(&[0, 8, 0, 0, 1, 0, 0, 0]);
    assert_eq!(entries, vec![MADTEntry::Processor(Processor { acpi_id: 0, apic_id: 0, flags: 1 })]);
    match entries[0] {
        MADTEntry::Processor(processor) => assert!(processor.is_enabled()),
        _ => unreachable!(),
    }
}

#[test]
fn single_disabled_processor() {
    let entries = decode(&[0, 8, 0, 0, 0, 0, 0, 0]);
    assert_eq!(entries, vec![MADTEntry::Processor(Processor { acpi_id: 0, apic_id: 0, flags: 0 })]);
    match entries[0] {
        MADTEntry::Processor(processor) => assert!(!processor.is_enabled()),
        _ => unreachable!(),
    }
}

#[test]
fn enabled_is_the_low_bit_of_the_flags() {
    let with_flags = |flags: u32| Processor { acpi_id: 0, apic_id: 0, flags };
    assert!(with_flags(1).is_enabled());
    assert!(with_flags(3).is_enabled());
    assert!(with_flags(0xFFFF_FFFF).is_enabled());
    assert!(!with_flags(0).is_enabled());
    assert!(!with_flags(2).is_enabled());
    assert!(!with_flags(0xFFFF_FFFE).is_enabled());
}

#[test]
fn unknown_entry_is_stepped_over_by_its_declared_length() {
    let mut stream = Vec::new();
    stream.extend_from_slice(&PROCESSOR);
    stream.extend_from_slice(&[99, 5, 0xAA, 0xBB, 0xCC]);
    stream.extend_from_slice(&IO_APIC);
    assert_eq!(decode(&stream), vec![processor(), MADTEntry::Unknown, io_apic()]);
}

#[test]
fn every_kind_of_entry_is_decoded() {
    let mut stream = Vec::new();
    stream.extend_from_slice(&OVERRIDE);
    stream.extend_from_slice(&IO_APIC);
    stream.extend_from_slice(&[3, 2]);
    stream.extend_from_slice(&PROCESSOR);
    stream.extend_from_slice(&[0xFF, 6, 0, 0, 0, 0]);
    assert_eq!(
        decode(&stream),
        vec![interrupt_override(), io_apic(), MADTEntry::Unknown, processor(), MADTEntry::Unknown]
    );
}

#[test]
fn multi_byte_fields_are_little_endian() {
    let entries = decode(&[0, 8, 0xFE, 0xFF, 0x78, 0x56, 0x34, 0x12]);
    assert_eq!(
        entries,
        vec![MADTEntry::Processor(Processor { acpi_id: 0xFE, apic_id: 0xFF, flags: 0x1234_5678 })]
    );
    let entries = decode(&[1, 12, 7, 0x55, 0x44, 0x33, 0x22, 0x11, 0xDD, 0xCC, 0xBB, 0xAA]);
    assert_eq!(
        entries,
        vec![MADTEntry::IOAPIC(IOAPIC {
            apic_id: 7,
            address: 0x1122_3344,
            interrupt_base: 0xAABB_CCDD,
        })]
    );
    let entries = decode(&[2, 10, 4, 5, 0x0D, 0x0C, 0x0B, 0x0A, 0x34, 0x12]);
    assert_eq!(
        entries,
        vec![MADTEntry::InterruptSourceOverride(InterruptSourceOverride {
            bus_source: 4,
            irq_source: 5,
            interrupt: 0x0A0B_0C0D,
            flags: 0x1234,
        })]
    );
}

#[test]
fn known_entry_longer_than_its_record_is_stepped_over_whole() {
    let mut stream = vec![0, 11, 1, 2, 1, 0, 0, 0, 0xEE, 0xEE, 0xEE];
    stream.extend_from_slice(&IO_APIC);
    assert_eq!(decode(&stream), vec![processor(), io_apic()]);
}

#[test]
fn known_entry_shorter_than_its_record_still_advances_by_its_length() {
    // The processor entry declares 4 bytes; its record is read from the 8 bytes at its
    // start, and the next entry is looked for 4 bytes on.
    let stream = [0, 4, 1, 2, 9, 4, 0, 0, 0xFF, 6, 0, 0, 0, 0];
    assert_eq!(
        decode(&stream),
        vec![
            MADTEntry::Processor(Processor { acpi_id: 1, apic_id: 2, flags: 0x0000_0409 }),
            MADTEntry::Unknown,
            MADTEntry::Unknown,
        ]
    );
}

#[test]
fn table_without_entries_yields_nothing() {
    assert_eq!(decode(&[]), Vec::<MADTEntry>::new());
}

#[test]
fn entry_reaching_past_the_end_stops_the_iteration() {
    let mut stream = Vec::new();
    stream.extend_from_slice(&PROCESSOR);
    stream.extend_from_slice(&[1, 13, 3, 0, 0x00, 0x00, 0xC0, 0xFE, 0x18, 0, 0, 0]);
    assert_eq!(decode(&stream), vec![processor()]);
    let mut stream = Vec::new();
    stream.extend_from_slice(&PROCESSOR);
    stream.extend_from_slice(&[99, 200, 0, 0]);
    assert_eq!(decode(&stream), vec![processor()]);
}

#[test]
fn record_reaching_past_the_end_stops_the_iteration() {
    // The entry declares 4 bytes, which fit, but a processor record takes 8.
    let mut stream = Vec::new();
    stream.extend_from_slice(&IO_APIC);
    stream.extend_from_slice(&[0, 4, 1, 2]);
    assert_eq!(decode(&stream), vec![io_apic()]);
}

#[test]
fn lone_trailing_byte_stops_the_iteration() {
    let mut stream = Vec::new();
    stream.extend_from_slice(&PROCESSOR);
    stream.push(0);
    assert_eq!(decode(&stream), vec![processor()]);
}

#[test]
fn entry_shorter_than_its_header_stops_the_iteration() {
    for length in [0u8, 1] {
        let mut stream = Vec::new();
        stream.extend_from_slice(&PROCESSOR);
        stream.extend_from_slice(&[5, length, 0, 0]);
        stream.extend_from_slice(&IO_APIC);
        assert_eq!(decode(&stream), vec![processor()]);
    }
}

#[test]
fn bytes_after_the_declared_length_are_not_entries() {
    let mut table = madt_bytes(&PROCESSOR);
    table.extend_from_slice(&IO_APIC);
    let mem = PhysicalMemory::new(TABLE, &table).unwrap();
    let madt = MADT::from_memory(&mem, TABLE).unwrap();
    assert_eq!(madt.header.length, 52);
    assert_eq!(drain(madt.entries(&mem)), vec![processor()]);
}

#[test]
fn table_shorter_than_its_fixed_part_has_no_entries() {
    let mut table = madt_bytes(&PROCESSOR);
    for length in [0u32, 36, 43, 44, 45] {
        table[4..8].copy_from_slice(&length.to_le_bytes());
        let mem = PhysicalMemory::new(TABLE, &table).unwrap();
        let madt = MADT::from_memory(&mem, TABLE).unwrap();
        assert_eq!(drain(madt.entries(&mem)), Vec::<MADTEntry>::new());
    }
}

#[test]
fn table_that_leaves_memory_has_no_entries() {
    let mut table = madt_bytes(&PROCESSOR);
    table[4..8].copy_from_slice(&53u32.to_le_bytes());
    let mem = PhysicalMemory::new(TABLE, &table).unwrap();
    let madt = MADT::from_memory(&mem, TABLE).unwrap();
    assert_eq!(drain(madt.entries(&mem)), Vec::<MADTEntry>::new());
    assert_eq!(madt.processors(&mem), Vec::<Processor>::new());
}

#[test]
fn filtered_views_keep_the_table_order() {
    let mut stream = Vec::new();
    stream.extend_from_slice(&[0, 8, 0, 0, 1, 0, 0, 0]);
    stream.extend_from_slice(&IO_APIC);
    stream.extend_from_slice(&[0, 8, 1, 1, 0, 0, 0, 0]);
    stream.extend_from_slice(&[7, 3, 0]);
    stream.extend_from_slice(&OVERRIDE);
    stream.extend_from_slice(&[0, 8, 2, 2, 1, 0, 0, 0]);
    stream.extend_from_slice(&[2, 10, 0, 0, 2, 0, 0, 0, 0, 0]);
    stream.extend_from_slice(&[1, 12, 4, 0, 0x00, 0x10, 0xC0, 0xFE, 0x30, 0, 0, 0]);
    let table = madt_bytes(&stream);
    let mem = PhysicalMemory::new(TABLE, &table).unwrap();
    let madt = MADT::from_memory(&mem, TABLE).unwrap();
    assert_eq!(drain(madt.entries(&mem)).len(), 8);
    assert_eq!(
        madt.processors(&mem),
        vec![
            Processor { acpi_id: 0, apic_id: 0, flags: 1 },
            Processor { acpi_id: 1, apic_id: 1, flags: 0 },
            Processor { acpi_id: 2, apic_id: 2, flags: 1 },
        ]
    );
    assert_eq!(
        madt.io_apics(&mem),
        vec![
            IOAPIC { apic_id: 3, address: 0xFEC0_0000, interrupt_base: 0x18 },
            IOAPIC { apic_id: 4, address: 0xFEC0_1000, interrupt_base: 0x30 },
        ]
    );
    assert_eq!(
        madt.interrupt_source_overrides(&mem),
        vec![
            InterruptSourceOverride { bus_source: 0, irq_source: 9, interrupt: 0x14, flags: 0x0D },
            InterruptSourceOverride { bus_source: 0, irq_source: 0, interrupt: 2, flags: 0 },
        ]
    );
    let enabled: Vec<u8> =
        madt.processors(&mem).iter().filter(|p| p.is_enabled()).map(|p| p.apic_id).collect();
    assert_eq!(enabled, vec![0, 2]);
}

#[test]
fn filtered_views_of_a_table_without_their_kind_are_empty() {
    let table = madt_bytes(&[9, 2, 9, 4, 0, 0]);
    let mem = PhysicalMemory::new(TABLE, &table).unwrap();
    let madt = MADT::from_memory(&mem, TABLE).unwrap();
    assert_eq!(madt.processors(&mem), Vec::<Processor>::new());
    assert_eq!(madt.io_apics(&mem), Vec::<IOAPIC>::new());
    assert_eq!(madt.interrupt_source_overrides(&mem), Vec::<InterruptSourceOverride>::new());
}

#[test]
fn decoding_is_repeatable() {
    let mut stream = Vec::new();
    stream.extend_from_slice(&PROCESSOR);
    stream.extend_from_slice(&[99, 5, 0xAA, 0xBB, 0xCC]);
    stream.extend_from_slice(&IO_APIC);
    stream.extend_from_slice(&OVERRIDE);
    let table = madt_bytes(&stream);
    let before = table.clone();
    let mem = PhysicalMemory::new(TABLE, &table).unwrap();
    let madt = MADT::from_memory(&mem, TABLE).unwrap();
    let first = drain(madt.entries(&mem));
    let second = drain(madt.entries(&mem));
    assert_eq!(first, second);
    assert_eq!(first.len(), 4);
    assert_eq!(madt.processors(&mem), madt.processors(&mem));
    assert_eq!(MADT::from_memory(&mem, TABLE), Some(madt));
    assert_eq!(table, before);
}

#[test]
fn decoding_does_not_depend_on_where_the_table_lies() {
    let mut stream = Vec::new();
    stream.extend_from_slice(&PROCESSOR);
    stream.extend_from_slice(&OVERRIDE);
    let table = madt_bytes(&stream);
    let mut padded = vec![0xEEu8; 0x40];
    padded.extend_from_slice(&table);
    padded.extend_from_slice(&[0xEE; 0x40]);
    let mem = PhysicalMemory::new(0x1000, &padded).unwrap();
    let madt = MADT::from_memory(&mem, 0x1040).unwrap();
    assert_eq!(drain(madt.entries(&mem)), vec![processor(), interrupt_override()]);
}

#[test]
fn entry_types_are_told_apart_by_the_type_byte() {
    assert_eq!(MADTEntryType::from(0), MADTEntryType::Processor);
    assert_eq!(MADTEntryType::from(1), MADTEntryType::IOAPIC);
    assert_eq!(MADTEntryType::from(2), MADTEntryType::InterruptSourceOverride);
    assert_eq!(MADTEntryType::from(3), MADTEntryType::Unknown);
    assert_eq!(MADTEntryType::from(99), MADTEntryType::Unknown);
    assert_eq!(MADTEntryType::from(255), MADTEntryType::Unknown);
    assert_eq!(MADTEntryType::Processor.size(), 8);
    assert_eq!(MADTEntryType::IOAPIC.size(), 12);
    assert_eq!(MADTEntryType::InterruptSourceOverride.size(), 10);
    assert_eq!(MADTEntryType::Unknown.size(), 2);
}
