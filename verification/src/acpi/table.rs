//! The header shared by every system description table, and the checksum that guards it.

use vstd::prelude::*;
use crate::memory::endian::{le_u32, read_le_u32};
use crate::memory::physical::PhysicalMemory;

verus! {

/// The number of bytes a system description table header occupies.
pub const SDT_HEADER_SIZE: usize = 36;

/// The header for any System Description Table, containing identifying information and
/// other metadata, together with the physical address it was read from.
#[derive(Debug, Clone, Copy, PartialEq, Eq)]
pub struct SDTHeader {
    /// The physical address of the first byte of the header, and so of the table.
    pub address: u64,
    /// The signature for this table which uniquely identifies it.
    pub signature: [u8; 4],
    /// The total length, in bytes, of this table (including the header and the entries).
    pub length: u32,
    /// The version of this table.
    pub revision: u8,
    /// The checksum byte; it is chosen so that all bytes of the table sum to 0 modulo 256.
    pub checksum: u8,
    /// A short string identifying the OEM who created this table, if any.
    pub oem_id: [u8; 6],
    /// The OEM-specific name for this table.
    pub oem_table_id: [u8; 8],
    /// The OEM-specific revision of this table.
    pub oem_revision: u32,
    /// The id of the utility that created this table.
    pub creator_id: u32,
    /// The revision of the utility that created this table.
    pub creator_revision: u32,
}

/// The sum of all the bytes of `bytes`, as an unbounded integer.
pub open spec fn byte_sum(bytes: Seq<u8>) -> int
    decreases bytes.len(),
{
    if bytes.len() == 0 {
        0
    } else {
        byte_sum(bytes.drop_last()) + bytes.last()
    }
}

/// Whether `bytes` pass the table checksum: their sum is 0 modulo 256.
pub open spec fn checksum_valid(bytes: Seq<u8>) -> bool {
    byte_sum(bytes) % 256 == 0
}

/// Replacing the byte at `index` changes the sum by the difference of the two bytes.
pub proof fn lemma_byte_sum_update(bytes: Seq<u8>, index: int, value: u8)
    requires
        0 <= index < bytes.len(),
    ensures
        byte_sum(bytes.update(index, value)) == byte_sum(bytes) - bytes[index] + value,
    decreases bytes.len(),
{
    let changed = bytes.update(index, value);
    if index == bytes.len() - 1 {
        assert(changed.drop_last() =~= bytes.drop_last());
    } else {
        assert(changed.drop_last() =~= bytes.drop_last().update(index, value));
        lemma_byte_sum_update(bytes.drop_last(), index, value);
    }
}

/// A table that passes its checksum fails it once any single one of its bytes is changed:
/// two distinct bytes differ by less than 256, so the sum cannot stay a multiple of 256.
pub proof fn lemma_checksum_detects_single_byte_change(bytes: Seq<u8>, index: int, value: u8)
    requires
        0 <= index < bytes.len(),
        value != bytes[index],
        checksum_valid(bytes),
    ensures
        !checksum_valid(bytes.update(index, value)),
{
    lemma_byte_sum_update(bytes, index, value);
}

impl SDTHeader {
    /// The header that the 36 bytes `bytes`, found at `address`, encode.
    pub open spec fn decode(bytes: Seq<u8>, address: u64) -> SDTHeader {
        SDTHeader {
            address,
            signature: [bytes[0], bytes[1], bytes[2], bytes[3]],
            length: le_u32(bytes, 4),
            revision: bytes[8],
            checksum: bytes[9],
            oem_id: [bytes[10], bytes[11], bytes[12], bytes[13], bytes[14], bytes[15]],
            oem_table_id: [
                bytes[16],
                bytes[17],
                bytes[18],
                bytes[19],
                bytes[20],
                bytes[21],
                bytes[22],
                bytes[23],
            ],
            oem_revision: le_u32(bytes, 24),
            creator_id: le_u32(bytes, 28),
            creator_revision: le_u32(bytes, 32),
        }
    }

    /// The header found at `address`, if all 36 of its bytes lie inside `mem`.
    pub open spec fn spec_from_memory(mem: &PhysicalMemory, address: u64) -> Option<SDTHeader> {
        if mem.readable(address as int, 36) {
            Some(Self::decode(mem.bytes_at(address as int, 36), address))
        } else {
            None
        }
    }

    /// Whether the whole table this header announces lies inside `mem`.
    pub open spec fn table_readable(&self, mem: &PhysicalMemory) -> bool {
        mem.readable(self.address as int, self.length as int)
    }

    /// The bytes of the whole table this header announces, header included.
    pub open spec fn table_bytes(&self, mem: &PhysicalMemory) -> Seq<u8> {
        mem.bytes_at(self.address as int, self.length as int)
    }

    /// Whether the table this header announces lies inside `mem` and passes its checksum.
    pub open spec fn checksum_holds(&self, mem: &PhysicalMemory) -> bool {
        self.table_readable(mem) && checksum_valid(self.table_bytes(mem))
    }

    /// Decodes the header that the first 36 bytes of `bytes`, found at `address`, encode.
    pub fn from_bytes(bytes: &[u8], address: u64) -> (header: SDTHeader)
        requires
            bytes.len() >= 36,
        ensures
            header == Self::decode(bytes@, address),
    {
        let header = SDTHeader {
            address,
            signature: [bytes[0], bytes[1], bytes[2], bytes[3]],
            length: read_le_u32(bytes, 4),
            revision: bytes[8],
            checksum: bytes[9],
            oem_id: [bytes[10], bytes[11], bytes[12], bytes[13], bytes[14], bytes[15]],
            oem_table_id: [
                bytes[16],
                bytes[17],
                bytes[18],
                bytes[19],
                bytes[20],
                bytes[21],
                bytes[22],
                bytes[23],
            ],
            oem_revision: read_le_u32(bytes, 24),
            creator_id: read_le_u32(bytes, 28),
            creator_revision: read_le_u32(bytes, 32),
        };
        proof {
            let expected = Self::decode(bytes@, address);
            assert(header.signature@ =~= expected.signature@);
            assert(header.oem_id@ =~= expected.oem_id@);
            assert(header.oem_table_id@ =~= expected.oem_table_id@);
        }
        header
    }

    /// Reads the header of the table at `address`.
    pub fn from_memory(mem: &PhysicalMemory, address: u64) -> (header: Option<SDTHeader>)
        ensures
            header == Self::spec_from_memory(mem, address),
    {
        match mem.read(address, SDT_HEADER_SIZE) {
            None => None,
            Some(bytes) => Some(Self::from_bytes(bytes, address)),
        }
    }

    /// Borrows the bytes of the whole table this header announces, or nothing when the
    /// table does not lie inside `mem`.
    pub fn table<'a>(&self, mem: &PhysicalMemory<'a>) -> (bytes: Option<&'a [u8]>)
        ensures
            bytes is Some <==> self.table_readable(mem),
            bytes matches Some(b) ==> b@ == self.table_bytes(mem),
    {
        mem.read(self.address, self.length as usize)
    }

    /// Verify the checksum of the table this header belongs to, by summing up all the
    /// bytes of the table with wrap-around. The sum should equal 0 for the checksum to be
    /// valid; a table that reaches outside `mem` is never valid.
    pub fn verify_checksum(&self, mem: &PhysicalMemory) -> (valid: bool)
        ensures
            valid == self.checksum_holds(mem),
    {
        match self.table(mem) {
            None => false,
            Some(bytes) => {
                let mut sum: u8 = 0;
                let mut offset: usize = 0;
                while offset < bytes.len()
                    invariant
                        offset <= bytes.len(),
                        sum == byte_sum(bytes@.take(offset as int)) % 256,
                    decreases bytes.len() - offset,
                {
                    assert(bytes@.take(offset + 1).drop_last() =~= bytes@.take(offset as int));
                    sum = sum.wrapping_add(bytes[offset]);
                    offset += 1;
                }
                assert(bytes@.take(offset as int) =~= bytes@);
                sum == 0
            },
        }
    }
}

/// A system table: something that starts with a header, can be recognised by its
/// signature, and can be checked against its checksum.
pub trait SystemTable: Sized {
    /// The header this table starts with.
    spec fn spec_header(&self) -> SDTHeader;

    /// The four bytes every table of this kind carries as its signature.
    spec fn spec_signature() -> Seq<u8>;

    /// The table of this kind found at `address`, if its fixed part lies inside `mem`.
    spec fn spec_from_memory(mem: &PhysicalMemory, address: u64) -> Option<Self>;

    /// Obtains the physical address of the header of the table.
    fn raw_header(&self) -> (address: u64)
        ensures
            address == self.spec_header().address,
    ;

    /// Obtains a reference to the header of the table.
    fn header(&self) -> (header: &SDTHeader)
        ensures
            *header == self.spec_header(),
    ;

    /// Verifies the checksum of the table, ensuring it's valid.
    fn verify_checksum(&self, mem: &PhysicalMemory) -> (valid: bool)
        ensures
            valid == self.spec_header().checksum_holds(mem),
    {
        self.header().verify_checksum(mem)
    }

    /// Obtains the _expected_ signature this system table should have.
    fn signature() -> (signature: [u8; 4])
        ensures
            signature@ == Self::spec_signature(),
    ;

    /// Reads the table of this kind found at `address`, trusting that the bytes there are
    /// an instance of it.
    fn from_memory(mem: &PhysicalMemory, address: u64) -> (table: Option<Self>)
        ensures
            table == Self::spec_from_memory(mem, address),
    ;
}

} // verus!
