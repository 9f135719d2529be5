//! A bounded, read-only image of a range of physical memory.
//!
//! Every structure the kernel decodes at boot lives at a raw physical address. All reads
//! go through [`PhysicalMemory::read`], which hands out a slice only when the whole
//! requested range lies inside the image.

use vstd::prelude::*;
use vstd::slice::slice_subrange;

verus! {

/// The bytes of physical memory from `base` up to `base + bytes.len()`.
pub struct PhysicalMemory<'a> {
    base: u64,
    bytes: &'a [u8],
}

impl<'a> PhysicalMemory<'a> {
    #[verifier::type_invariant]
    spec fn in_address_space(&self) -> bool {
        self.base + self.bytes@.len() <= u64::MAX
    }

    /// The physical address of the first byte of the image.
    pub closed spec fn base(&self) -> int {
        self.base as int
    }

    /// The bytes of the image, in address order.
    pub closed spec fn contents(&self) -> Seq<u8> {
        self.bytes@
    }

    /// The physical address just past the last byte of the image.
    pub open spec fn end(&self) -> int {
        self.base() + self.contents().len()
    }

    /// Whether the `len` bytes starting at `address` all lie inside the image.
    pub open spec fn readable(&self, address: int, len: int) -> bool {
        &&& 0 <= len
        &&& self.base() <= address
        &&& address + len <= self.end()
        &&& address + len <= u64::MAX
    }

    /// The `len` bytes starting at `address`; meaningful where they are `readable`.
    pub open spec fn bytes_at(&self, address: int, len: int) -> Seq<u8> {
        self.contents().subrange(address - self.base(), address - self.base() + len)
    }

    /// The byte at `address`; meaningful where it is `readable`.
    pub open spec fn byte_at(&self, address: int) -> u8 {
        self.contents()[address - self.base()]
    }

    /// An image is nothing more than its base address and its bytes: two images that
    /// agree on both are the same image.
    pub proof fn lemma_same_bytes_same_image(&self, other: &PhysicalMemory)
        requires
            self.base() == other.base(),
            self.contents() == other.contents(),
        ensures
            *self == *other,
    {
        assert(self.bytes@ == other.bytes@);
        assert(self.bytes == other.bytes);
    }

    /// Presents `bytes` as the memory found at physical address `base`. There is no such
    /// image when the range would run past the end of the 64-bit address space.
    pub fn new(base: u64, bytes: &'a [u8]) -> (mem: Option<Self>)
        ensures
            mem is Some <==> base + bytes@.len() <= u64::MAX,
            mem matches Some(m) ==> m.base() == base && m.contents() == bytes@,
    {
        if bytes.len() as u64 <= u64::MAX - base {
            Some(PhysicalMemory { base, bytes })
        } else {
            None
        }
    }

    /// Borrows the `len` bytes at `address`, or nothing when any of them lies outside the
    /// image.
    pub fn read(&self, address: u64, len: usize) -> (out: Option<&'a [u8]>)
        ensures
            out is Some <==> self.readable(address as int, len as int),
            out matches Some(s) ==> s@ == self.bytes_at(address as int, len as int),
    {
        proof {
            use_type_invariant(self);
        }
        if address < self.base {
            return None;
        }
        let offset: u64 = address - self.base;
        let size: u64 = self.bytes.len() as u64;
        if offset > size || len as u64 > size - offset {
            return None;
        }
        let start: usize = offset as usize;
        Some(slice_subrange(self.bytes, start, start + len))
    }
}

} // verus!
