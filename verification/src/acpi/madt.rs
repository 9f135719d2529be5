//! Provides a definition for the MADT, or Multiple APIC Description Table, which allows for
//! enumerating the interrupt controllers of the system as well as the processors available.
//!
//! After its fixed part the table is a packed stream of entries. Each entry starts with a
//! type byte and a length byte, and the length byte alone decides where the next entry
//! starts, so that entries of a type unknown to this decoder are stepped over without
//! losing the stream.

use vstd::prelude::*;
use crate::acpi::table::{SDTHeader, SystemTable};
use crate::memory::endian::{le_u16, le_u32, read_le_u16, read_le_u32};
use crate::memory::physical::PhysicalMemory;

verus! {

/// The number of bytes of the fixed part of the MADT: the header, the address of the local
/// controller and the flags. The entries start right after it.
pub const MADT_SIZE: usize = 44;

/// The number of bytes of an entry header: the type byte and the length byte.
pub const MADT_ENTRY_HEADER_SIZE: usize = 2;

/// The number of bytes of a processor entry, header included.
pub const MADT_PROCESSOR_ENTRY_SIZE: usize = 8;

/// The number of bytes of an IO APIC entry, header included.
pub const MADT_IOAPIC_ENTRY_SIZE: usize = 12;

/// The number of bytes of an interrupt source override entry, header included.
pub const MADT_INTERRUPT_SOURCE_ENTRY_SIZE: usize = 10;

/// The signature of the MADT, `"APIC"`.
pub const MADT_SIGNATURE: [u8; 4] = [0x41, 0x50, 0x49, 0x43];

/// The Multiple APIC Description Table, which contains information about the interrupt
/// controllers on the system as well as other CPU peripherals such as available processors.
#[derive(Debug, Clone, Copy, PartialEq, Eq)]
pub struct MADT {
    /// The header of this ACPI table.
    pub header: SDTHeader,
    /// The physical address of the local controller, eg, the LAPIC.
    pub controller_address: u32,
    /// Extra flags detailing any particular features of the hardware.
    pub flags: u32,
}

/// A higher-level enumeration of the possible entries in the MADT.
#[derive(Debug, Clone, Copy, PartialEq, Eq, Structural)]
pub enum MADTEntry {
    /// A processor entry describing a physical processor.
    Processor(Processor),
    /// An IO APIC entry describing an IO interrupt controller.
    IOAPIC(IOAPIC),
    /// An interrupt source override entry, which reroutes a legacy interrupt line.
    InterruptSourceOverride(InterruptSourceOverride),
    /// An entry of a type this decoder does not interpret.
    Unknown,
}

/// A useful abstraction over a processor as described in the MADT.
#[derive(Debug, Clone, Copy, PartialEq, Eq, Structural)]
pub struct Processor {
    /// The id of the processor in the ACPI tables.
    pub acpi_id: u8,
    /// The id of the processor according to the APIC (interrupt controller); this is the
    /// one that should be used for sending interrupts to given processors.
    pub apic_id: u8,
    /// Any extra flags denoting the state or properties of the processor.
    pub flags: u32,
}

/// A useful abstraction over an IO APIC as described in the MADT.
#[derive(Debug, Clone, Copy, PartialEq, Eq, Structural)]
pub struct IOAPIC {
    /// The id of this IO APIC according to the APIC (interrupt controller); this is the
    /// one that should be used for handling interrupts.
    pub apic_id: u8,
    /// The physical address of the start of the IO APIC's memory mapped registers.
    pub address: u64,
    /// The number of the first global system interrupt this IO APIC handles.
    pub interrupt_base: u32,
}

/// A useful abstraction over an interrupt source override as described in the MADT.
#[derive(Debug, Clone, Copy, PartialEq, Eq, Structural)]
pub struct InterruptSourceOverride {
    /// The bus which the interrupt source override originates from.
    pub bus_source: u8,
    /// The interrupt line on that bus which the override originates from.
    pub irq_source: u8,
    /// The global system interrupt the source is mapped to.
    pub interrupt: u32,
    /// The polarity and trigger mode of the interrupt.
    pub flags: u16,
}

/// An enumeration of the possible types of entries in the MADT.
#[derive(Debug, Clone, Copy, PartialEq, Eq, Structural)]
pub enum MADTEntryType {
    /// A processor entry containing a processor id and a LAPIC id.
    Processor,
    /// An IO APIC entry containing the location of the IO APIC.
    IOAPIC,
    /// An interrupt source override entry.
    InterruptSourceOverride,
    /// Any other type of entry.
    Unknown,
}

impl MADTEntryType {
    /// The type of entry that the type byte `entry_type` announces.
    pub open spec fn of(entry_type: u8) -> MADTEntryType {
        if entry_type == 0 {
            MADTEntryType::Processor
        } else if entry_type == 1 {
            MADTEntryType::IOAPIC
        } else if entry_type == 2 {
            MADTEntryType::InterruptSourceOverride
        } else {
            MADTEntryType::Unknown
        }
    }

    /// The number of bytes that decoding an entry of this type reads, header included.
    pub open spec fn record_size(self) -> int {
        match self {
            MADTEntryType::Processor => 8,
            MADTEntryType::IOAPIC => 12,
            MADTEntryType::InterruptSourceOverride => 10,
            MADTEntryType::Unknown => 2,
        }
    }

    /// The number of bytes that decoding an entry of this type reads, header included.
    pub fn size(self) -> (size: usize)
        ensures
            size == self.record_size(),
    {
        match self {
            MADTEntryType::Processor => MADT_PROCESSOR_ENTRY_SIZE,
            MADTEntryType::IOAPIC => MADT_IOAPIC_ENTRY_SIZE,
            MADTEntryType::InterruptSourceOverride => MADT_INTERRUPT_SOURCE_ENTRY_SIZE,
            MADTEntryType::Unknown => MADT_ENTRY_HEADER_SIZE,
        }
    }
}

impl From<u8> for MADTEntryType {
    /// The type of entry that the type byte `entry_type` announces.
    fn from(entry_type: u8) -> (kind: MADTEntryType) {
        match entry_type {
            0 => MADTEntryType::Processor,
            1 => MADTEntryType::IOAPIC,
            2 => MADTEntryType::InterruptSourceOverride,
            _ => MADTEntryType::Unknown,
        }
    }
}

impl vstd::std_specs::convert::FromSpecImpl<u8> for MADTEntryType {
    open spec fn obeys_from_spec() -> bool {
        true
    }

    open spec fn from_spec(entry_type: u8) -> MADTEntryType {
        MADTEntryType::of(entry_type)
    }
}

/// Whether a whole entry can be decoded at offset `pos` of the table `table`: its header
/// lies inside the table, it declares a length that covers at least the header and stays
/// inside the table, and the bytes that its type calls for lie inside the table.
pub open spec fn entry_fits(table: Seq<u8>, pos: int) -> bool {
    &&& 0 <= pos
    &&& pos + 2 <= table.len()
    &&& table[pos + 1] >= 2
    &&& pos + table[pos + 1] <= table.len()
    &&& pos + MADTEntryType::of(table[pos]).record_size() <= table.len()
}

/// The entry that the bytes at offset `pos` of the table `table` encode.
pub open spec fn decode_entry(table: Seq<u8>, pos: int) -> MADTEntry {
    match MADTEntryType::of(table[pos]) {
        MADTEntryType::Processor => MADTEntry::Processor(
            Processor {
                acpi_id: table[pos + 2],
                apic_id: table[pos + 3],
                flags: le_u32(table, pos + 4),
            },
        ),
        MADTEntryType::IOAPIC => MADTEntry::IOAPIC(
            IOAPIC {
                apic_id: table[pos + 2],
                address: le_u32(table, pos + 4) as u64,
                interrupt_base: le_u32(table, pos + 8),
            },
        ),
        MADTEntryType::InterruptSourceOverride => MADTEntry::InterruptSourceOverride(
            InterruptSourceOverride {
                bus_source: table[pos + 2],
                irq_source: table[pos + 3],
                interrupt: le_u32(table, pos + 4),
                flags: le_u16(table, pos + 8),
            },
        ),
        MADTEntryType::Unknown => MADTEntry::Unknown,
    }
}

/// The entries of the table `table` from offset `pos` on, in table order. Each entry is
/// followed by the one that starts where its declared length ends; the sequence stops at
/// the first offset where no whole entry fits, which for a well-formed table is its end.
pub open spec fn decode_entries(table: Seq<u8>, pos: int) -> Seq<MADTEntry>
    decreases table.len() - pos,
{
    if entry_fits(table, pos) {
        seq![decode_entry(table, pos)] + decode_entries(table, pos + table[pos + 1])
    } else {
        Seq::empty()
    }
}

/// The processor that `entry` describes, if it describes one.
pub open spec fn as_processor(entry: MADTEntry) -> Option<Processor> {
    match entry {
        MADTEntry::Processor(processor) => Some(processor),
        _ => None,
    }
}

/// The IO APIC that `entry` describes, if it describes one.
pub open spec fn as_io_apic(entry: MADTEntry) -> Option<IOAPIC> {
    match entry {
        MADTEntry::IOAPIC(io_apic) => Some(io_apic),
        _ => None,
    }
}

/// The interrupt source override that `entry` describes, if it describes one.
pub open spec fn as_interrupt_source_override(entry: MADTEntry) -> Option<
    InterruptSourceOverride,
> {
    match entry {
        MADTEntry::InterruptSourceOverride(iso) => Some(iso),
        _ => None,
    }
}

/// The processors among `entries`, in order.
pub open spec fn processors_of(entries: Seq<MADTEntry>) -> Seq<Processor> {
    entries.filter_map(|entry: MADTEntry| as_processor(entry))
}

/// The IO APICs among `entries`, in order.
pub open spec fn io_apics_of(entries: Seq<MADTEntry>) -> Seq<IOAPIC> {
    entries.filter_map(|entry: MADTEntry| as_io_apic(entry))
}

/// The interrupt source overrides among `entries`, in order.
pub open spec fn interrupt_source_overrides_of(entries: Seq<MADTEntry>) -> Seq<
    InterruptSourceOverride,
> {
    entries.filter_map(|entry: MADTEntry| as_interrupt_source_override(entry))
}

/// Decoding stops, yielding nothing more, at an entry whose declared length reaches past
/// the end of the table.
pub proof fn lemma_overlong_entry_ends_decoding(table: Seq<u8>, pos: int)
    requires
        0 <= pos,
        pos + 2 <= table.len(),
        pos + table[pos + 1] > table.len(),
    ensures
        decode_entries(table, pos) == Seq::<MADTEntry>::empty(),
{
}

/// Decoding stops, yielding nothing more, once fewer than two bytes are left, and so in
/// particular at the end of the table.
pub proof fn lemma_decoding_ends_with_table(table: Seq<u8>, pos: int)
    requires
        pos + 2 > table.len(),
    ensures
        decode_entries(table, pos) == Seq::<MADTEntry>::empty(),
{
}

/// Where a whole entry fits, it is the first to be decoded, and the rest of the entries
/// are those found where its declared length ends, whatever its type.
pub proof fn lemma_decoding_advances_by_declared_length(table: Seq<u8>, pos: int)
    requires
        entry_fits(table, pos),
    ensures
        decode_entries(table, pos).len() > 0,
        decode_entries(table, pos)[0] == decode_entry(table, pos),
        decode_entries(table, pos).drop_first() == decode_entries(table, pos + table[pos + 1]),
{
    assert(decode_entries(table, pos).drop_first() =~= decode_entries(
        table,
        pos + table[pos + 1],
    ));
}

/// Decoding reads nothing but the bytes of the table and leaves them as they are: images
/// of memory that show the same bytes for a table give the same entries, and with them the
/// same processors, IO APICs and interrupt source overrides. Decoding the table again
/// from memory that has not changed therefore reproduces the first sequence.
pub proof fn lemma_entries_depend_on_table_bytes(
    madt: MADT,
    first: &PhysicalMemory,
    second: &PhysicalMemory,
)
    requires
        madt.header.table_readable(first) == madt.header.table_readable(second),
        madt.header.table_readable(first) ==> madt.header.table_bytes(first)
            == madt.header.table_bytes(second),
    ensures
        madt.spec_entries(first) == madt.spec_entries(second),
        processors_of(madt.spec_entries(first)) == processors_of(madt.spec_entries(second)),
        io_apics_of(madt.spec_entries(first)) == io_apics_of(madt.spec_entries(second)),
        interrupt_source_overrides_of(madt.spec_entries(first)) == interrupt_source_overrides_of(
            madt.spec_entries(second),
        ),
{
}

impl Processor {
    /// Whether the low bit of the flags, which marks an enabled processor, is set.
    pub open spec fn spec_is_enabled(&self) -> bool {
        self.flags % 2 == 1
    }

    /// Returns true if this processor is enabled and can be used.
    pub fn is_enabled(&self) -> (enabled: bool)
        ensures
            enabled == self.spec_is_enabled(),
    {
        let flags: u32 = self.flags;
        assert((flags & 0x1 != 0) == (flags % 2 == 1)) by (bit_vector);
        (flags & 0x1) != 0
    }
}

/// A cursor over the entries of a MADT. It borrows the bytes of the table, up to the
/// table's declared end, and remembers where the next entry starts.
#[derive(Debug)]
pub struct MADTEntryIterator<'a> {
    /// The bytes of the table, header included; the entries end where they end.
    table: &'a [u8],
    /// The offset in `table` of the next entry to parse and return.
    location: usize,
}

impl<'a> View for MADTEntryIterator<'a> {
    type V = Seq<MADTEntry>;

    /// The entries that are still to come, in order.
    closed spec fn view(&self) -> Seq<MADTEntry> {
        decode_entries(self.table@, self.location as int)
    }
}

impl<'a> MADTEntryIterator<'a> {
    /// Decodes the next entry and steps past it by the length the entry declares. Once the
    /// entries are exhausted this keeps returning nothing.
    pub fn next(&mut self) -> (entry: Option<MADTEntry>)
        ensures
            old(self)@.len() == 0 ==> entry is None && final(self)@ == old(self)@,
            old(self)@.len() > 0 ==> entry == Some(old(self)@[0]) && final(self)@ == old(
                self,
            )@.drop_first(),
    {
        let table = self.table;
        let location = self.location;
        if location > table.len() || table.len() - location < MADT_ENTRY_HEADER_SIZE {
            return None;
        }
        let remaining = table.len() - location;
        let kind = MADTEntryType::from(table[location]);
        let length = table[location + 1] as usize;
        if length < MADT_ENTRY_HEADER_SIZE || length > remaining || kind.size() > remaining {
            return None;
        }
        let entry = match kind {
            MADTEntryType::Processor => MADTEntry::Processor(
                Processor {
                    acpi_id: table[location + 2],
                    apic_id: table[location + 3],
                    flags: read_le_u32(table, location + 4),
                },
            ),
            MADTEntryType::IOAPIC => MADTEntry::IOAPIC(
                IOAPIC {
                    apic_id: table[location + 2],
                    address: read_le_u32(table, location + 4) as u64,
                    interrupt_base: read_le_u32(table, location + 8),
                },
            ),
            MADTEntryType::InterruptSourceOverride => MADTEntry::InterruptSourceOverride(
                InterruptSourceOverride {
                    bus_source: table[location + 2],
                    irq_source: table[location + 3],
                    interrupt: read_le_u32(table, location + 4),
                    flags: read_le_u16(table, location + 8),
                },
            ),
            MADTEntryType::Unknown => MADTEntry::Unknown,
        };
        proof {
            lemma_decoding_advances_by_declared_length(table@, location as int);
        }
        self.location = location + length;
        Some(entry)
    }
}

impl MADT {
    /// The MADT that the 44 bytes `bytes`, found at `address`, start.
    pub open spec fn decode(bytes: Seq<u8>, address: u64) -> MADT {
        MADT {
            header: SDTHeader::decode(bytes, address),
            controller_address: le_u32(bytes, 36),
            flags: le_u32(bytes, 40),
        }
    }

    /// The entries of this table as found in `mem`, in table order. A table that reaches
    /// outside `mem` has none.
    pub open spec fn spec_entries(&self, mem: &PhysicalMemory) -> Seq<MADTEntry> {
        if self.header.table_readable(mem) {
            decode_entries(self.header.table_bytes(mem), 44)
        } else {
            Seq::empty()
        }
    }

    /// Return an iterator over all of the MADT entries.
    pub fn entries<'a>(&self, mem: &PhysicalMemory<'a>) -> (entries: MADTEntryIterator<'a>)
        ensures
            entries@ == self.spec_entries(mem),
    {
        match self.header.table(mem) {
            Some(table) => MADTEntryIterator { table, location: MADT_SIZE },
            None => {
                let table: &'static [u8] = &[];
                MADTEntryIterator { table, location: 0 }
            },
        }
    }

    /// Return all of the processors in the MADT table, in table order.
    pub fn processors(&self, mem: &PhysicalMemory) -> (processors: Vec<Processor>)
        ensures
            processors@ == processors_of(self.spec_entries(mem)),
    {
        let mut entries = self.entries(mem);
        let mut processors: Vec<Processor> = Vec::new();
        let ghost seen: Seq<MADTEntry> = Seq::empty();
        loop
            invariant
                seen + entries@ == self.spec_entries(mem),
                processors@ == processors_of(seen),
            ensures
                processors@ == processors_of(self.spec_entries(mem)),
            decreases entries@.len(),
        {
            match entries.next() {
                None => {
                    assert(seen + Seq::<MADTEntry>::empty() =~= seen);
                    break;
                },
                Some(entry) => {
                    proof {
                        let before = seen;
                        seen = seen.push(entry);
                        assert(seen.drop_last() =~= before);
                        assert(seen + entries@ =~= self.spec_entries(mem));
                    }
                    match entry {
                        MADTEntry::Processor(processor) => {
                            processors.push(processor);
                        },
                        _ => {},
                    }
                },
            }
        }
        processors
    }

    /// Return all of the IO APICs in the MADT table, in table order.
    pub fn io_apics(&self, mem: &PhysicalMemory) -> (io_apics: Vec<IOAPIC>)
        ensures
            io_apics@ == io_apics_of(self.spec_entries(mem)),
    {
        let mut entries = self.entries(mem);
        let mut io_apics: Vec<IOAPIC> = Vec::new();
        let ghost seen: Seq<MADTEntry> = Seq::empty();
        loop
            invariant
                seen + entries@ == self.spec_entries(mem),
                io_apics@ == io_apics_of(seen),
            ensures
                io_apics@ == io_apics_of(self.spec_entries(mem)),
            decreases entries@.len(),
        {
            match entries.next() {
                None => {
                    assert(seen + Seq::<MADTEntry>::empty() =~= seen);
                    break;
                },
                Some(entry) => {
                    proof {
                        let before = seen;
                        seen = seen.push(entry);
                        assert(seen.drop_last() =~= before);
                        assert(seen + entries@ =~= self.spec_entries(mem));
                    }
                    match entry {
                        MADTEntry::IOAPIC(io_apic) => {
                            io_apics.push(io_apic);
                        },
                        _ => {},
                    }
                },
            }
        }
        io_apics
    }

    /// Return all of the interrupt source overrides in the MADT table, in table order.
    pub fn interrupt_source_overrides(&self, mem: &PhysicalMemory) -> (overrides: Vec<
        InterruptSourceOverride,
    >)
        ensures
            overrides@ == interrupt_source_overrides_of(self.spec_entries(mem)),
    {
        let mut entries = self.entries(mem);
        let mut overrides: Vec<InterruptSourceOverride> = Vec::new();
        let ghost seen: Seq<MADTEntry> = Seq::empty();
        loop
            invariant
                seen + entries@ == self.spec_entries(mem),
                overrides@ == interrupt_source_overrides_of(seen),
            ensures
                overrides@ == interrupt_source_overrides_of(self.spec_entries(mem)),
            decreases entries@.len(),
        {
            match entries.next() {
                None => {
                    assert(seen + Seq::<MADTEntry>::empty() =~= seen);
                    break;
                },
                Some(entry) => {
                    proof {
                        let before = seen;
                        seen = seen.push(entry);
                        assert(seen.drop_last() =~= before);
                        assert(seen + entries@ =~= self.spec_entries(mem));
                    }
                    match entry {
                        MADTEntry::InterruptSourceOverride(iso) => {
                            overrides.push(iso);
                        },
                        _ => {},
                    }
                },
            }
        }
        overrides
    }
}

impl SystemTable for MADT {
    open spec fn spec_header(&self) -> SDTHeader {
        self.header
    }

    open spec fn spec_signature() -> Seq<u8> {
        MADT_SIGNATURE@
    }

    open spec fn spec_from_memory(mem: &PhysicalMemory, address: u64) -> Option<MADT> {
        if mem.readable(address as int, 44) {
            Some(MADT::decode(mem.bytes_at(address as int, 44), address))
        } else {
            None
        }
    }

    fn raw_header(&self) -> (address: u64) {
        self.header.address
    }

    fn header(&self) -> (header: &SDTHeader) {
        &self.header
    }

    fn signature() -> (signature: [u8; 4]) {
        MADT_SIGNATURE
    }

    fn from_memory(mem: &PhysicalMemory, address: u64) -> (table: Option<MADT>) {
        match mem.read(address, MADT_SIZE) {
            None => None,
            Some(bytes) => {
                let header = SDTHeader::from_bytes(bytes, address);
                Some(
                    MADT {
                        header,
                        controller_address: read_le_u32(bytes, 36),
                        flags: read_le_u32(bytes, 40),
                    },
                )
            },
        }
    }
}

} // verus!
