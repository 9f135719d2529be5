//! Provides the definition of the Root System Description Pointer, as well as its 64-bit
//! variant, and the search that locates it in low physical memory.

use vstd::prelude::*;
use crate::memory::endian::{le_u16, le_u32, le_u64, read_le_u16, read_le_u32, read_le_u64};
use crate::memory::physical::PhysicalMemory;

verus! {

/// The unique signature which identifies the RSDP, `"RSD PTR "`.
pub const RSDP_SIGNATURE: [u8; 8] = [0x52, 0x53, 0x44, 0x20, 0x50, 0x54, 0x52, 0x20];

/// The location where the segment pointer to the extended bios data area can be found.
pub const EXTENDED_BIOS_AREA_POINTER_LOC: u64 = 0x40E;

/// The maximum size to look at in the extended bios data area.
pub const EXTENDED_BIOS_AREA_MAX_SIZE: u64 = 0x400;

/// The starting location to look for the RSDP at.
pub const RSDP_LOCATION_START: u64 = 0xE0000;

/// The ending location to look for the RSDP at.
pub const RSDP_LOCATION_END: u64 = 0x100000;

/// The distance between two places where the RSDP may start.
pub const RSDP_ALIGNMENT: u64 = 16;

/// The version number corresponding to version 1 of ACPI.
pub const RSDP_VERSION_1: u8 = 0;

/// The version number corresponding to version 2.0 and above of ACPI.
pub const RSDP_VERSION_2: u8 = 2;

/// The number of bytes the RSDP occupies.
pub const RSDP_SIZE: usize = 20;

/// The number of bytes the XSDP occupies.
pub const XSDP_SIZE: usize = 36;

/// The Root System Description Pointer for ACPI v1.0, which is located somewhere in low
/// memory and is the entry point to all other ACPI tables.
///
/// The RSDP is 16-byte aligned.
#[derive(Debug, Clone, Copy, PartialEq, Eq)]
pub struct RSDP {
    /// The unique signature for finding the RSDP, equal to `RSDP_SIGNATURE`.
    pub signature: [u8; 8],
    /// A checksum byte, chosen so that the bytes of this structure sum to 0 modulo 256.
    pub checksum: u8,
    /// The unique OEMID for the company/individuals who created the device.
    pub oem_id: [u8; 6],
    /// The revision/version of ACPI. A value of 0 implies ACPI 1.0, and a value of 2
    /// implies ACPI 2.0 and above.
    pub revision: u8,
    /// The physical address of the Root System Description Table, in 32 bits.
    pub address: u32,
}

/// The eXtended Root System Description Pointer for ACPI v2.0 and above; it contains all
/// of the same fields as the RSDP, except it adds a length field and provides a 64-bit
/// pointer to the XSDT.
#[derive(Debug, Clone, Copy, PartialEq, Eq)]
pub struct XSDP {
    /// The unique signature for finding the RSDP, equal to `RSDP_SIGNATURE`.
    pub signature: [u8; 8],
    /// A checksum byte covering the first 20 bytes of this structure.
    pub checksum: u8,
    /// The unique OEMID for the company/individuals who created the device.
    pub oem_id: [u8; 6],
    /// The revision/version of ACPI. A value of 0 implies ACPI 1.0, and a value of 2
    /// implies ACPI 2.0 and above.
    pub revision: u8,
    /// The length of this whole structure.
    pub length: u32,
    /// The 64-bit physical address of the XSDT.
    pub address: u64,
    /// An additional checksum byte covering the whole of this structure.
    pub extended_checksum: u8,
}

impl RSDP {
    /// The root pointer that the 20 bytes `bytes` encode.
    pub open spec fn decode(bytes: Seq<u8>) -> RSDP {
        RSDP {
            signature: [
                bytes[0],
                bytes[1],
                bytes[2],
                bytes[3],
                bytes[4],
                bytes[5],
                bytes[6],
                bytes[7],
            ],
            checksum: bytes[8],
            oem_id: [bytes[9], bytes[10], bytes[11], bytes[12], bytes[13], bytes[14]],
            revision: bytes[15],
            address: le_u32(bytes, 16),
        }
    }

    /// The root pointer found at `address`, if all 20 of its bytes lie inside `mem`.
    pub open spec fn spec_from_memory(mem: &PhysicalMemory, address: u64) -> Option<RSDP> {
        if mem.readable(address as int, 20) {
            Some(Self::decode(mem.bytes_at(address as int, 20)))
        } else {
            None
        }
    }

    /// Reads the root pointer at `address`.
    pub fn from_memory(mem: &PhysicalMemory, address: u64) -> (rsdp: Option<RSDP>)
        ensures
            rsdp == Self::spec_from_memory(mem, address),
    {
        match mem.read(address, RSDP_SIZE) {
            None => None,
            Some(bytes) => {
                let rsdp = RSDP {
                    signature: [
                        bytes[0],
                        bytes[1],
                        bytes[2],
                        bytes[3],
                        bytes[4],
                        bytes[5],
                        bytes[6],
                        bytes[7],
                    ],
                    checksum: bytes[8],
                    oem_id: [bytes[9], bytes[10], bytes[11], bytes[12], bytes[13], bytes[14]],
                    revision: bytes[15],
                    address: read_le_u32(bytes, 16),
                };
                proof {
                    let expected = Self::decode(bytes@);
                    assert(rsdp.signature@ =~= expected.signature@);
                    assert(rsdp.oem_id@ =~= expected.oem_id@);
                }
                Some(rsdp)
            },
        }
    }
}

impl XSDP {
    /// The extended root pointer that the 36 bytes `bytes` encode. The four bytes after
    /// the revision, which repeat a 32-bit table address, and the last three bytes, which
    /// are padding, carry nothing.
    pub open spec fn decode(bytes: Seq<u8>) -> XSDP {
        XSDP {
            signature: [
                bytes[0],
                bytes[1],
                bytes[2],
                bytes[3],
                bytes[4],
                bytes[5],
                bytes[6],
                bytes[7],
            ],
            checksum: bytes[8],
            oem_id: [bytes[9], bytes[10], bytes[11], bytes[12], bytes[13], bytes[14]],
            revision: bytes[15],
            length: le_u32(bytes, 20),
            address: le_u64(bytes, 24),
            extended_checksum: bytes[32],
        }
    }

    /// The extended root pointer found at `address`, if all 36 of its bytes lie inside
    /// `mem`.
    pub open spec fn spec_from_memory(mem: &PhysicalMemory, address: u64) -> Option<XSDP> {
        if mem.readable(address as int, 36) {
            Some(Self::decode(mem.bytes_at(address as int, 36)))
        } else {
            None
        }
    }

    /// Reads the extended root pointer at `address`.
    pub fn from_memory(mem: &PhysicalMemory, address: u64) -> (xsdp: Option<XSDP>)
        ensures
            xsdp == Self::spec_from_memory(mem, address),
    {
        match mem.read(address, XSDP_SIZE) {
            None => None,
            Some(bytes) => {
                let xsdp = XSDP {
                    signature: [
                        bytes[0],
                        bytes[1],
                        bytes[2],
                        bytes[3],
                        bytes[4],
                        bytes[5],
                        bytes[6],
                        bytes[7],
                    ],
                    checksum: bytes[8],
                    oem_id: [bytes[9], bytes[10], bytes[11], bytes[12], bytes[13], bytes[14]],
                    revision: bytes[15],
                    length: read_le_u32(bytes, 20),
                    address: read_le_u64(bytes, 24),
                    extended_checksum: bytes[32],
                };
                proof {
                    let expected = Self::decode(bytes@);
                    assert(xsdp.signature@ =~= expected.signature@);
                    assert(xsdp.oem_id@ =~= expected.oem_id@);
                }
                Some(xsdp)
            },
        }
    }
}

/// Whether the eight bytes at `address` lie inside `mem` and spell the RSDP signature.
pub open spec fn rsdp_at(mem: &PhysicalMemory, address: int) -> bool {
    mem.readable(address, 8) && mem.bytes_at(address, 8) == RSDP_SIGNATURE@
}

/// Whether `address` is one of the places of the window from `start` up to `end` where the
/// search looks: `start`, and every sixteenth byte after it.
pub open spec fn scanned(start: int, end: int, address: int) -> bool {
    start <= address < end && (address - start) % 16 == 0
}

/// The lowest scanned place of the window from `start` up to `end` that carries the RSDP
/// signature, if there is one.
pub open spec fn scan(mem: &PhysicalMemory, start: int, end: int) -> Option<u64>
    decreases
            if start < end {
                end - start
            } else {
                0
            },
{
    if start >= end {
        None
    } else if rsdp_at(mem, start) {
        Some(start as u64)
    } else {
        scan(mem, start + 16, end)
    }
}

/// The start of the extended bios data area: the 16-bit segment stored at
/// `EXTENDED_BIOS_AREA_POINTER_LOC`, scaled to a linear address. There is none when the
/// segment does not lie inside `mem`.
pub open spec fn spec_extended_bios_data_area_start(mem: &PhysicalMemory) -> Option<u64> {
    if mem.readable(0x40E, 2) {
        Some((le_u16(mem.bytes_at(0x40E, 2), 0) * 16) as u64)
    } else {
        None
    }
}

/// The address of the RSDP: the first match of the window below 1 MiB, or else the first
/// match of the first KiB of the extended bios data area.
pub open spec fn spec_find_rsdp(mem: &PhysicalMemory) -> Option<u64> {
    match scan(mem, 0xE0000, 0x100000) {
        Some(address) => Some(address),
        None => match spec_extended_bios_data_area_start(mem) {
            Some(ebda) => scan(mem, ebda as int, ebda + 0x400),
            None => None,
        },
    }
}

/// A scan that finds something finds a scanned place that carries the signature and has
/// no scanned place carrying it below; a scan that finds nothing has passed no scanned
/// place that carries it.
pub proof fn lemma_scan_finds_first_match(mem: &PhysicalMemory, start: int, end: int)
    requires
        0 <= start,
        end <= u64::MAX,
    ensures
        match scan(mem, start, end) {
            Some(found) => {
                &&& scanned(start, end, found as int)
                &&& rsdp_at(mem, found as int)
                &&& forall|below: int|
                    scanned(start, end, below) && below < found ==> !rsdp_at(mem, below)
            },
            None => forall|address: int| scanned(start, end, address) ==> !rsdp_at(mem, address),
        },
    decreases
            if start < end {
                end - start
            } else {
                0
            },
{
    if start < end && !rsdp_at(mem, start) {
        lemma_scan_finds_first_match(mem, start + 16, end);
        assert forall|address: int| scanned(start, end, address) && address != start implies scanned(
            start + 16,
            end,
            address,
        ) by {
            assert((address - start) % 16 == 0 && address > start ==> address >= start + 16);
        }
        match scan(mem, start + 16, end) {
            Some(found) => {
                assert(scanned(start, end, found as int));
            },
            None => {},
        }
    }
}

/// The signature at a scanned place of the window below 1 MiB, with no scanned place of
/// that window carrying it below, is what the search finds, whatever the extended bios
/// data area holds and wherever it lies.
pub proof fn lemma_find_rsdp_prefers_legacy_window(mem: &PhysicalMemory, address: int)
    requires
        scanned(0xE0000, 0x100000, address),
        rsdp_at(mem, address),
        forall|below: int|
            scanned(0xE0000, 0x100000, below) && below < address ==> !rsdp_at(mem, below),
    ensures
        spec_find_rsdp(mem) == Some(address as u64),
{
    lemma_scan_finds_first_match(mem, 0xE0000, 0x100000);
}

/// With no signature at any scanned place of the window below 1 MiB, the signature at a
/// scanned place of the extended bios data area, with no scanned place of that area
/// carrying it below, is what the search finds.
pub proof fn lemma_find_rsdp_falls_back_to_ebda(mem: &PhysicalMemory, address: int)
    requires
        forall|legacy: int| scanned(0xE0000, 0x100000, legacy) ==> !rsdp_at(mem, legacy),
        spec_extended_bios_data_area_start(mem) matches Some(ebda) && {
            &&& scanned(ebda as int, ebda + 0x400, address)
            &&& forall|below: int|
                scanned(ebda as int, ebda + 0x400, below) && below < address ==> !rsdp_at(
                    mem,
                    below,
                )
        },
        rsdp_at(mem, address),
    ensures
        spec_find_rsdp(mem) == Some(address as u64),
{
    lemma_scan_finds_first_match(mem, 0xE0000, 0x100000);
    let ebda = spec_extended_bios_data_area_start(mem).unwrap();
    lemma_scan_finds_first_match(mem, ebda as int, ebda + 0x400);
}

/// With no signature at any scanned place of either window, the search finds nothing.
pub proof fn lemma_find_rsdp_not_found(mem: &PhysicalMemory)
    requires
        forall|legacy: int| scanned(0xE0000, 0x100000, legacy) ==> !rsdp_at(mem, legacy),
        spec_extended_bios_data_area_start(mem) matches Some(ebda) ==> forall|address: int|
            scanned(ebda as int, ebda + 0x400, address) ==> !rsdp_at(mem, address),
    ensures
        spec_find_rsdp(mem) is None,
{
    lemma_scan_finds_first_match(mem, 0xE0000, 0x100000);
    if let Some(ebda) = spec_extended_bios_data_area_start(mem) {
        lemma_scan_finds_first_match(mem, ebda as int, ebda + 0x400);
    }
}

/// Whether the eight bytes at `address` lie inside `mem` and spell the RSDP signature.
fn signature_at(mem: &PhysicalMemory, address: u64) -> (found: bool)
    ensures
        found == rsdp_at(mem, address as int),
{
    match mem.read(address, 8) {
        None => false,
        Some(bytes) => {
            let signature: [u8; 8] = RSDP_SIGNATURE;
            let mut index: usize = 0;
            while index < 8
                invariant
                    index <= 8,
                    bytes@.len() == 8,
                    bytes@ == mem.bytes_at(address as int, 8),
                    mem.readable(address as int, 8),
                    signature == RSDP_SIGNATURE,
                    forall|i: int| 0 <= i < index ==> bytes@[i] == RSDP_SIGNATURE@[i],
                decreases 8 - index,
            {
                if bytes[index] != signature[index] {
                    assert(bytes@[index as int] != RSDP_SIGNATURE@[index as int]);
                    return false;
                }
                index += 1;
            }
            assert(bytes@ =~= RSDP_SIGNATURE@);
            true
        },
    }
}

/// Looks at every sixteenth byte from `start` up to `end` for the RSDP signature.
fn scan_window(mem: &PhysicalMemory, start: u64, end: u64) -> (found: Option<u64>)
    requires
        end <= 0x20_0000,
    ensures
        found == scan(mem, start as int, end as int),
{
    if start >= end {
        return None;
    }
    let mut address: u64 = start;
    while address < end
        invariant
            end <= 0x20_0000,
            address <= end + 16,
            scan(mem, address as int, end as int) == scan(mem, start as int, end as int),
        decreases end + 16 - address,
    {
        if signature_at(mem, address) {
            return Some(address);
        }
        address += RSDP_ALIGNMENT;
    }
    None
}

/// Obtains the starting memory location of the extended bios data area.
pub fn extended_bios_data_area_start(mem: &PhysicalMemory) -> (start: Option<u64>)
    ensures
        start == spec_extended_bios_data_area_start(mem),
{
    match mem.read(EXTENDED_BIOS_AREA_POINTER_LOC, 2) {
        None => None,
        Some(bytes) => {
            let segment: u64 = read_le_u16(bytes, 0) as u64;
            Some(segment * 16)
        },
    }
}

/// Attempts to find the RSDP by looking at the defined regions in memory where it should
/// be located: first the area from `RSDP_LOCATION_START` to `RSDP_LOCATION_END`, then the
/// start of the extended bios data area. Both are searched upwards in steps of 16 bytes
/// and the first match wins.
pub fn find_rsdp(mem: &PhysicalMemory) -> (found: Option<u64>)
    ensures
        found == spec_find_rsdp(mem),
{
    match scan_window(mem, RSDP_LOCATION_START, RSDP_LOCATION_END) {
        Some(address) => Some(address),
        None => match extended_bios_data_area_start(mem) {
            Some(ebda) => scan_window(mem, ebda, ebda + EXTENDED_BIOS_AREA_MAX_SIZE),
            None => None,
        },
    }
}

} // verus!
