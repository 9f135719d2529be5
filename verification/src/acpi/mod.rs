//! Provides utilities for dealing with the ACPI System Tables, which describe the
//! processors, interrupt controllers and other hardware of the platform.
//!
//! Discovery starts at the root pointer in low memory, goes on to the root table the
//! pointer names, and from there to any other table by its signature.

pub mod madt;
pub mod rsdp;
pub mod rsdt;
pub mod table;

pub use self::madt::{
    IOAPIC, InterruptSourceOverride, MADT, MADTEntry, MADTEntryIterator, MADTEntryType, Processor,
};
pub use self::rsdp::{
    extended_bios_data_area_start, find_rsdp, EXTENDED_BIOS_AREA_MAX_SIZE,
    EXTENDED_BIOS_AREA_POINTER_LOC, RSDP, RSDP_LOCATION_END, RSDP_LOCATION_START, RSDP_SIGNATURE,
    RSDP_VERSION_1, RSDP_VERSION_2, XSDP,
};
pub use self::rsdt::{RawTablesIter, RSDT, XSDT};
pub use self::table::{SDTHeader, SystemTable};

use vstd::prelude::*;
use crate::acpi::rsdp::spec_find_rsdp;
use crate::memory::physical::PhysicalMemory;

verus! {

/// Represents a handle into all of the ACPI data structures, and eases information
/// retrieval.
#[derive(Debug, Clone, Copy, PartialEq, Eq)]
pub enum ACPI {
    /// A version 1 ACPI root table, which has 32-bit pointers.
    Version1(RSDT),
    /// A version 2 (or above) ACPI root table, which has 64-bit pointers.
    Version2(XSDT),
}

/// Whether the four bytes at `address` lie inside `mem` and equal `signature`.
pub open spec fn has_signature(mem: &PhysicalMemory, address: u64, signature: Seq<u8>) -> bool {
    mem.readable(address as int, 4) && mem.bytes_at(address as int, 4) == signature
}

/// The first of `tables` that carries `signature`, if any does.
pub open spec fn first_with_signature(
    mem: &PhysicalMemory,
    tables: Seq<u64>,
    signature: Seq<u8>,
) -> Option<u64>
    decreases tables.len(),
{
    if tables.len() == 0 {
        None
    } else if has_signature(mem, tables[0], signature) {
        Some(tables[0])
    } else {
        first_with_signature(mem, tables.drop_first(), signature)
    }
}

/// A search that finds a table finds one of `tables` that carries `signature` and has none
/// carrying it before it; a search that finds nothing has seen no table that carries it.
pub proof fn lemma_first_with_signature(mem: &PhysicalMemory, tables: Seq<u64>, signature: Seq<u8>)
    ensures
        match first_with_signature(mem, tables, signature) {
            Some(found) => exists|index: int|
                {
                    &&& 0 <= index < tables.len()
                    &&& #[trigger] tables[index] == found
                    &&& has_signature(mem, found, signature)
                    &&& forall|before: int|
                        0 <= before < index ==> !has_signature(mem, tables[before], signature)
                },
            None => forall|index: int|
                0 <= index < tables.len() ==> !has_signature(mem, tables[index], signature),
        },
    decreases tables.len(),
{
    if tables.len() == 0 {
    } else if has_signature(mem, tables[0], signature) {
        assert(tables[0] == tables[0]);
    } else {
        let rest = tables.drop_first();
        lemma_first_with_signature(mem, rest, signature);
        match first_with_signature(mem, rest, signature) {
            Some(found) => {
                let index = choose|index: int|
                    {
                        &&& 0 <= index < rest.len()
                        &&& #[trigger] rest[index] == found
                        &&& has_signature(mem, found, signature)
                        &&& forall|before: int|
                            0 <= before < index ==> !has_signature(mem, rest[before], signature)
                    };
                assert(tables[index + 1] == found);
                assert forall|before: int| 0 <= before < index + 1 implies !has_signature(
                    mem,
                    tables[before],
                    signature,
                ) by {
                    if before > 0 {
                        assert(tables[before] == rest[before - 1]);
                    }
                }
            },
            None => {
                assert forall|index: int| 0 <= index < tables.len() implies !has_signature(
                    mem,
                    tables[index],
                    signature,
                ) by {
                    if index > 0 {
                        assert(tables[index] == rest[index - 1]);
                    }
                }
            },
        }
    }
}

/// Discovery and decoding are functions of the memory image alone and change nothing in
/// it: over two images with the same base and the same bytes, and so over one image asked
/// twice, the search for the root pointer, the handle it leads to, the tables a handle
/// enumerates, the table found by a signature and the entries of a MADT all come out the
/// same.
pub proof fn lemma_discovery_is_repeatable(
    first: &PhysicalMemory,
    second: &PhysicalMemory,
    acpi: ACPI,
    signature: Seq<u8>,
    madt: MADT,
)
    requires
        first.base() == second.base(),
        first.contents() == second.contents(),
    ensures
        spec_find_rsdp(first) == spec_find_rsdp(second),
        ACPI::spec_find_in_memory(first) == ACPI::spec_find_in_memory(second),
        acpi.spec_raw_tables(first) == acpi.spec_raw_tables(second),
        acpi.spec_find_raw_table(first, signature) == acpi.spec_find_raw_table(second, signature),
        madt.spec_entries(first) == madt.spec_entries(second),
{
    first.lemma_same_bytes_same_image(second);
}

impl ACPI {
    /// The handle that the root pointer at `rsdp_address` leads to. Revision 0 selects the
    /// RSDT at the pointer's 32-bit address, revision 2 and above the XSDT at the extended
    /// pointer's 64-bit address; any other revision leads nowhere, and so does a pointer
    /// or a root table header that does not lie inside `mem`.
    pub open spec fn spec_from_rsdp(mem: &PhysicalMemory, rsdp_address: u64) -> Option<ACPI> {
        match RSDP::spec_from_memory(mem, rsdp_address) {
            None => None,
            Some(rsdp) => if rsdp.revision == 0 {
                match RSDT::spec_from_memory(mem, rsdp.address as u64) {
                    Some(rsdt) => Some(ACPI::Version1(rsdt)),
                    None => None,
                }
            } else if rsdp.revision >= 2 {
                match XSDP::spec_from_memory(mem, rsdp_address) {
                    None => None,
                    Some(xsdp) => match XSDT::spec_from_memory(mem, xsdp.address) {
                        Some(xsdt) => Some(ACPI::Version2(xsdt)),
                        None => None,
                    },
                }
            } else {
                None
            },
        }
    }

    /// The handle that the search for the root pointer in `mem` leads to.
    pub open spec fn spec_find_in_memory(mem: &PhysicalMemory) -> Option<ACPI> {
        match spec_find_rsdp(mem) {
            Some(rsdp_address) => Self::spec_from_rsdp(mem, rsdp_address),
            None => None,
        }
    }

    /// The addresses of the tables the root table points to, in table order.
    pub open spec fn spec_raw_tables(&self, mem: &PhysicalMemory) -> Seq<u64> {
        match *self {
            ACPI::Version1(rsdt) => rsdt.spec_raw_tables(mem),
            ACPI::Version2(xsdt) => xsdt.spec_raw_tables(mem),
        }
    }

    /// The address of the first table the root table points to that carries `signature`.
    pub open spec fn spec_find_raw_table(&self, mem: &PhysicalMemory, signature: Seq<u8>) -> Option<
        u64,
    > {
        first_with_signature(mem, self.spec_raw_tables(mem), signature)
    }

    /// Resolves the root table that the root pointer at `rsdp_address` names, choosing its
    /// pointer width by the revision byte of the pointer.
    pub fn from_rsdp(mem: &PhysicalMemory, rsdp_address: u64) -> (acpi: Option<ACPI>)
        ensures
            acpi == Self::spec_from_rsdp(mem, rsdp_address),
    {
        match RSDP::from_memory(mem, rsdp_address) {
            None => None,
            Some(rsdp) => {
                if rsdp.revision == RSDP_VERSION_1 {
                    match RSDT::from_memory(mem, rsdp.address as u64) {
                        Some(rsdt) => Some(ACPI::Version1(rsdt)),
                        None => None,
                    }
                } else if rsdp.revision >= RSDP_VERSION_2 {
                    // Version 2 means we're actually dealing with an XSDP.
                    match XSDP::from_memory(mem, rsdp_address) {
                        None => None,
                        Some(xsdp) => match XSDT::from_memory(mem, xsdp.address) {
                            Some(xsdt) => Some(ACPI::Version2(xsdt)),
                            None => None,
                        },
                    }
                } else {
                    None
                }
            },
        }
    }

    /// Attempts to locate the root ACPI table in the designated memory area and return a
    /// handle to it.
    pub fn find_in_memory(mem: &PhysicalMemory) -> (acpi: Option<ACPI>)
        ensures
            acpi == Self::spec_find_in_memory(mem),
    {
        match find_rsdp(mem) {
            Some(rsdp_address) => Self::from_rsdp(mem, rsdp_address),
            None => None,
        }
    }

    /// Provides an iterator over all of the tables pointed to by the root system
    /// descriptor table.
    pub fn raw_tables<'a>(&self, mem: &PhysicalMemory<'a>) -> (tables: RawTablesIter<'a>)
        ensures
            tables@ == self.spec_raw_tables(mem),
    {
        match self {
            ACPI::Version1(rsdt) => rsdt.raw_tables(mem),
            ACPI::Version2(xsdt) => xsdt.raw_tables(mem),
        }
    }

    /// Attempt to find a table header in the root system descriptor table which has a
    /// signature matching the given signature; return its physical address. Each candidate
    /// is read just far enough to compare its signature, and the first match wins.
    pub fn find_raw_table(&self, mem: &PhysicalMemory, signature: &[u8]) -> (table: Option<u64>)
        ensures
            table == self.spec_find_raw_table(mem, signature@),
    {
        let mut tables = self.raw_tables(mem);
        loop
            invariant
                first_with_signature(mem, tables@, signature@) == self.spec_find_raw_table(
                    mem,
                    signature@,
                ),
            decreases tables@.len(),
        {
            match tables.next() {
                None => {
                    return None;
                },
                Some(address) => {
                    if signature_matches(mem, address, signature) {
                        return Some(address);
                    }
                },
            }
        }
    }

    /// Attempt to find the given system table and return it if it exists. The table found
    /// by its signature is read as a `T` with no further check.
    pub fn find_table<T: SystemTable>(&self, mem: &PhysicalMemory) -> (table: Option<T>)
        ensures
            table == match self.spec_find_raw_table(mem, T::spec_signature()) {
                Some(address) => T::spec_from_memory(mem, address),
                None => None,
            },
    {
        let signature = T::signature();
        match self.find_raw_table(mem, &signature) {
            Some(address) => T::from_memory(mem, address),
            None => None,
        }
    }
}

/// Whether the four bytes at `address` lie inside `mem` and equal `signature`.
fn signature_matches(mem: &PhysicalMemory, address: u64, signature: &[u8]) -> (matches: bool)
    ensures
        matches == has_signature(mem, address, signature@),
{
    match mem.read(address, 4) {
        None => false,
        Some(bytes) => {
            if signature.len() != 4 {
                return false;
            }
            let mut index: usize = 0;
            while index < 4
                invariant
                    index <= 4,
                    bytes@.len() == 4,
                    signature@.len() == 4,
                    bytes@ == mem.bytes_at(address as int, 4),
                    mem.readable(address as int, 4),
                    forall|i: int| 0 <= i < index ==> bytes@[i] == signature@[i],
                decreases 4 - index,
            {
                if bytes[index] != signature[index] {
                    assert(bytes@[index as int] != signature@[index as int]);
                    return false;
                }
                index += 1;
            }
            assert(bytes@ =~= signature@);
            true
        },
    }
}

} // verus!
