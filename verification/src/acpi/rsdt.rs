//! Provides table definitions for the Root System Description Table, which allows
//! enumerating all of the other system tables that ACPI provides.
//!
//! A root table is a header followed by a packed array of physical addresses, one for
//! each other table. The RSDT stores them in 4 bytes each, the XSDT in 8.

use vstd::prelude::*;
use crate::acpi::table::{SDTHeader, SystemTable};
use crate::memory::endian::{le_u32, le_u64, read_le_u32, read_le_u64};
use crate::memory::physical::PhysicalMemory;

verus! {

/// The signature of the RSDT, `"RSDT"`.
pub const RSDT_SIGNATURE: [u8; 4] = [0x52, 0x53, 0x44, 0x54];

/// The signature of the XSDT, `"XSDT"`.
pub const XSDT_SIGNATURE: [u8; 4] = [0x58, 0x53, 0x44, 0x54];

/// The root system description table, which describes where all the other ACPI tables are
/// in memory. This is the older, 32-bit version used in ACPI v1.0.
#[derive(Debug, Clone, Copy, PartialEq, Eq)]
pub struct RSDT {
    /// The header of the RSDT table.
    pub header: SDTHeader,
}

/// The extended root system description table, which describes where all the other ACPI
/// tables are in memory. This is similar to the RSDT, except all the pointers are 64 bits
/// wide here.
#[derive(Debug, Clone, Copy, PartialEq, Eq)]
pub struct XSDT {
    /// The header of the XSDT table.
    pub header: SDTHeader,
}

/// The number of bytes one stored pointer takes.
pub open spec fn pointer_width(is_64_bit: bool) -> int {
    if is_64_bit {
        8
    } else {
        4
    }
}

/// The number of pointers a root table of `length` bytes holds: as many whole pointers as
/// fit after the 36 bytes of the header, and none when the table is shorter than its own
/// header.
pub open spec fn pointer_count(length: int, is_64_bit: bool) -> int {
    if length < 36 {
        0
    } else {
        (length - 36) / pointer_width(is_64_bit)
    }
}

/// The pointer stored at offset `at` of `bytes`, widened to 64 bits.
pub open spec fn pointer_at(bytes: Seq<u8>, at: int, is_64_bit: bool) -> u64 {
    if is_64_bit {
        le_u64(bytes, at)
    } else {
        le_u32(bytes, at) as u64
    }
}

/// The `count` pointers stored back to back in `bytes` from offset `at` on, in order.
pub open spec fn pointers_from(bytes: Seq<u8>, at: int, count: int, is_64_bit: bool) -> Seq<
    u64,
> {
    Seq::new(
        count as nat,
        |i: int| pointer_at(bytes, at + pointer_width(is_64_bit) * i, is_64_bit),
    )
}

/// The pointers that the root table with the bytes `table` holds, in table order.
pub open spec fn table_pointers(table: Seq<u8>, is_64_bit: bool) -> Seq<u64> {
    pointers_from(table, 36, pointer_count(table.len() as int, is_64_bit), is_64_bit)
}

/// The pointers of the root table that `header` announces, as found in `mem`. A table that
/// reaches outside `mem` has none.
pub open spec fn root_table_pointers(header: SDTHeader, mem: &PhysicalMemory, is_64_bit: bool) -> Seq<
    u64,
> {
    if header.table_readable(mem) {
        table_pointers(header.table_bytes(mem), is_64_bit)
    } else {
        Seq::empty()
    }
}

/// A root table shorter than its own header holds no pointers, whatever its width.
pub proof fn lemma_short_root_table_has_no_pointers(table: Seq<u8>, is_64_bit: bool)
    requires
        table.len() < 36,
    ensures
        table_pointers(table, is_64_bit) == Seq::<u64>::empty(),
{
    assert(table_pointers(table, is_64_bit) =~= Seq::<u64>::empty());
}

/// A root table holds exactly as many pointers as fit whole between its header and its
/// end, and each of them lies inside the table.
pub proof fn lemma_root_table_pointers_inside(table: Seq<u8>, is_64_bit: bool, index: int)
    requires
        0 <= index < table_pointers(table, is_64_bit).len(),
    ensures
        table_pointers(table, is_64_bit).len() == pointer_count(table.len() as int, is_64_bit),
        36 + pointer_width(is_64_bit) * (index + 1) <= table.len(),
        table_pointers(table, is_64_bit)[index] == pointer_at(
            table,
            36 + pointer_width(is_64_bit) * index,
            is_64_bit,
        ),
{
}

/// Enumeration reads nothing but the bytes of the root table and leaves them as they are:
/// images of memory that show the same bytes for the table give the same pointers.
/// Enumerating again from memory that has not changed therefore reproduces the first
/// sequence.
pub proof fn lemma_pointers_depend_on_table_bytes(
    header: SDTHeader,
    first: &PhysicalMemory,
    second: &PhysicalMemory,
    is_64_bit: bool,
)
    requires
        header.table_readable(first) == header.table_readable(second),
        header.table_readable(first) ==> header.table_bytes(first) == header.table_bytes(second),
    ensures
        root_table_pointers(header, first, is_64_bit) == root_table_pointers(
            header,
            second,
            is_64_bit,
        ),
{
}

/// Provides iteration over the pointers to other tables in the RSDT/XSDT.
#[derive(Debug)]
pub struct RawTablesIter<'a> {
    /// The bytes of the root table, header included.
    table: &'a [u8],
    /// The offset in `table` of the next pointer to return.
    location: usize,
    /// The number of pointers remaining.
    remaining: usize,
    /// If true, then we're interpreting 64-bit pointers; otherwise, 32-bit pointers.
    is_64_bit: bool,
}

impl<'a> View for RawTablesIter<'a> {
    type V = Seq<u64>;

    /// The pointers that are still to come, in order.
    closed spec fn view(&self) -> Seq<u64> {
        pointers_from(self.table@, self.location as int, self.remaining as int, self.is_64_bit)
    }
}

impl<'a> RawTablesIter<'a> {
    #[verifier::type_invariant]
    spec fn inside_table(&self) -> bool {
        if self.is_64_bit {
            self.location + 8 * self.remaining <= self.table@.len()
        } else {
            self.location + 4 * self.remaining <= self.table@.len()
        }
    }

    /// The iterator over the pointers of the root table that `header` announces.
    fn over(header: &SDTHeader, mem: &PhysicalMemory<'a>, is_64_bit: bool) -> (tables: Self)
        ensures
            tables@ == root_table_pointers(*header, mem, is_64_bit),
    {
        match header.table(mem) {
            Some(table) => {
                if table.len() < 36 {
                    let tables = RawTablesIter { table, location: 0, remaining: 0, is_64_bit };
                    assert(tables@ =~= Seq::<u64>::empty());
                    tables
                } else if is_64_bit {
                    let remaining = (table.len() - 36) / 8;
                    RawTablesIter { table, location: 36, remaining, is_64_bit }
                } else {
                    let remaining = (table.len() - 36) / 4;
                    RawTablesIter { table, location: 36, remaining, is_64_bit }
                }
            },
            None => {
                let table: &'static [u8] = &[];
                let tables = RawTablesIter { table, location: 0, remaining: 0, is_64_bit };
                assert(tables@ =~= Seq::<u64>::empty());
                tables
            },
        }
    }

    /// Returns the next pointer and steps past it. Once the pointers are exhausted this
    /// keeps returning nothing. The pointer is not followed.
    pub fn next(&mut self) -> (table: Option<u64>)
        ensures
            old(self)@.len() == 0 ==> table is None && final(self)@ == old(self)@,
            old(self)@.len() > 0 ==> table == Some(old(self)@[0]) && final(self)@ == old(
                self,
            )@.drop_first(),
    {
        proof {
            use_type_invariant(&*self);
        }
        // If there are none remaining we return immediately.
        if self.remaining == 0 {
            return None;
        }
        let ghost before = self@;
        assert(self.table@.len() == self.table.len());
        // Otherwise, interpret the value properly and advance.
        if self.is_64_bit {
            let value = read_le_u64(self.table, self.location);
            self.remaining = self.remaining - 1;
            self.location = self.location + 8;
            assert(self@ =~= before.drop_first()) by {
                assert forall|i: int| 0 <= i < self@.len() implies self@[i] == before[i + 1] by {
                    assert(self.location + 8 * i == (self.location - 8) + 8 * (i + 1));
                }
            }
            Some(value)
        } else {
            let value = read_le_u32(self.table, self.location) as u64;
            self.remaining = self.remaining - 1;
            self.location = self.location + 4;
            assert(self@ =~= before.drop_first()) by {
                assert forall|i: int| 0 <= i < self@.len() implies self@[i] == before[i + 1] by {
                    assert(self.location + 4 * i == (self.location - 4) + 4 * (i + 1));
                }
            }
            Some(value)
        }
    }
}

impl RSDT {
    /// The addresses of the tables this root table points to, in table order.
    pub open spec fn spec_raw_tables(&self, mem: &PhysicalMemory) -> Seq<u64> {
        root_table_pointers(self.header, mem, false)
    }

    /// Returns an iterator which iterates over all of the table entries in this root
    /// table.
    pub fn raw_tables<'a>(&self, mem: &PhysicalMemory<'a>) -> (tables: RawTablesIter<'a>)
        ensures
            tables@ == self.spec_raw_tables(mem),
    {
        RawTablesIter::over(&self.header, mem, false)
    }
}

impl XSDT {
    /// The addresses of the tables this root table points to, in table order.
    pub open spec fn spec_raw_tables(&self, mem: &PhysicalMemory) -> Seq<u64> {
        root_table_pointers(self.header, mem, true)
    }

    /// Returns an iterator which iterates over all of the table entries in this root
    /// table.
    pub fn raw_tables<'a>(&self, mem: &PhysicalMemory<'a>) -> (tables: RawTablesIter<'a>)
        ensures
            tables@ == self.spec_raw_tables(mem),
    {
        RawTablesIter::over(&self.header, mem, true)
    }
}

impl SystemTable for RSDT {
    open spec fn spec_header(&self) -> SDTHeader {
        self.header
    }

    open spec fn spec_signature() -> Seq<u8> {
        RSDT_SIGNATURE@
    }

    open spec fn spec_from_memory(mem: &PhysicalMemory, address: u64) -> Option<RSDT> {
        match SDTHeader::spec_from_memory(mem, address) {
            Some(header) => Some(RSDT { header }),
            None => None,
        }
    }

    fn raw_header(&self) -> (address: u64) {
        self.header.address
    }

    fn header(&self) -> (header: &SDTHeader) {
        &self.header
    }

    fn signature() -> (signature: [u8; 4]) {
        RSDT_SIGNATURE
    }

    fn from_memory(mem: &PhysicalMemory, address: u64) -> (table: Option<RSDT>) {
        match SDTHeader::from_memory(mem, address) {
            Some(header) => Some(RSDT { header }),
            None => None,
        }
    }
}

impl SystemTable for XSDT {
    open spec fn spec_header(&self) -> SDTHeader {
        self.header
    }

    open spec fn spec_signature() -> Seq<u8> {
        XSDT_SIGNATURE@
    }

    open spec fn spec_from_memory(mem: &PhysicalMemory, address: u64) -> Option<XSDT> {
        match SDTHeader::spec_from_memory(mem, address) {
            Some(header) => Some(XSDT { header }),
            None => None,
        }
    }

    fn raw_header(&self) -> (address: u64) {
        self.header.address
    }

    fn header(&self) -> (header: &SDTHeader) {
        &self.header
    }

    fn signature() -> (signature: [u8; 4]) {
        XSDT_SIGNATURE
    }

    fn from_memory(mem: &PhysicalMemory, address: u64) -> (table: Option<XSDT>) {
        match SDTHeader::from_memory(mem, address) {
            Some(header) => Some(XSDT { header }),
            None => None,
        }
    }
}

} // verus!
