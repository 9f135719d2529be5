//! Provides utilities for dealing with amd64 paging: the entries of the page tables and
//! the flags and frame number packed into each of them.

use vstd::prelude::*;
use crate::bits::{bit_of, bits_of, get_bit, get_range, set_bit, set_range, with_bit, with_bits};

verus! {

/// The bit index of the present bit in a page entry.
pub const PAGE_ENTRY_PRESENT_BIT: u8 = 0;

/// The bit index of the read/write bit in a page entry.
pub const PAGE_ENTRY_WRITABLE_BIT: u8 = 1;

/// The bit index of the user/supervisor bit in a page entry.
pub const PAGE_ENTRY_USER_BIT: u8 = 2;

/// The bit index of the write-through bit in a page entry.
pub const PAGE_ENTRY_WRITE_THROUGH_BIT: u8 = 3;

/// The bit index of the cache disable bit in a page entry.
pub const PAGE_ENTRY_CACHE_DISABLE_BIT: u8 = 4;

/// The bit index of the accessed bit in a page entry.
pub const PAGE_ENTRY_ACCESSED_BIT: u8 = 5;

/// The bit index of the dirty bit in a page entry.
pub const PAGE_ENTRY_DIRTY_BIT: u8 = 6;

/// The bit index of the page size bit in a page entry.
pub const PAGE_ENTRY_PAGE_SIZE_BIT: u8 = 7;

/// The bit index of the global bit in a page entry.
pub const PAGE_ENTRY_GLOBAL_BIT: u8 = 8;

/// The bit index where the physical frame number starts in a page entry.
pub const PAGE_ENTRY_PAGE_BITS_START: u8 = 12;

/// The bit index just past the physical frame number in a page entry.
pub const PAGE_ENTRY_PAGE_BITS_END: u8 = 51;

/// The size of an x86_64 page, in bytes.
pub const PAGE_SIZE: usize = 4096;

/// The number of page entries which can fit into a page.
pub const PAGE_ENTRY_COUNT: usize = 512;

/// A struct representing a page entry in one of the page tables.
/// These entries are mutable.
#[derive(Debug, Clone, Copy)]
pub struct PageEntry(u64);

impl View for PageEntry {
    type V = u64;

    /// The 64 bits of the entry as the processor reads them.
    closed spec fn view(&self) -> u64 {
        self.0
    }
}

impl PageEntry {
    /// The entry whose 64 bits are `bits`.
    pub fn from_bits(bits: u64) -> (entry: PageEntry)
        ensures
            entry@ == bits,
    {
        PageEntry(bits)
    }

    /// The 64 bits of the entry as the processor reads them.
    pub fn bits(&self) -> (bits: u64)
        ensures
            bits == self@,
    {
        self.0
    }

    /// Returns true if this page entry is present (eg, points to a valid page), and false
    /// otherwise.
    pub fn is_present(&self) -> (present: bool)
        ensures
            present == bit_of(self@, PAGE_ENTRY_PRESENT_BIT),
    {
        get_bit(self.0, PAGE_ENTRY_PRESENT_BIT)
    }

    /// Sets the present status of the entry to the given value `value`.
    pub fn set_present(&mut self, value: bool) -> (entry: &mut Self)
        ensures
            entry@ == with_bit(old(self)@, PAGE_ENTRY_PRESENT_BIT, value),
            *final(self) == *final(entry),
    {
        set_bit(&mut self.0, PAGE_ENTRY_PRESENT_BIT, value);
        self
    }

    /// Returns true if this page allows writes, and false if it is read-only.
    pub fn is_writable(&self) -> (writable: bool)
        ensures
            writable == bit_of(self@, PAGE_ENTRY_WRITABLE_BIT),
    {
        get_bit(self.0, PAGE_ENTRY_WRITABLE_BIT)
    }

    /// Sets the writable status of this page to the given value.
    pub fn set_writable(&mut self, value: bool) -> (entry: &mut Self)
        ensures
            entry@ == with_bit(old(self)@, PAGE_ENTRY_WRITABLE_BIT, value),
            *final(self) == *final(entry),
    {
        set_bit(&mut self.0, PAGE_ENTRY_WRITABLE_BIT, value);
        self
    }

    /// Returns true if this page is usermode accessible, and false otherwise.
    pub fn is_user(&self) -> (user: bool)
        ensures
            user == bit_of(self@, PAGE_ENTRY_USER_BIT),
    {
        get_bit(self.0, PAGE_ENTRY_USER_BIT)
    }

    /// Stores the given value in the read/write bit of the entry. The user/supervisor bit,
    /// which `is_user` reads, is left as it is.
    pub fn set_user(&mut self, value: bool) -> (entry: &mut Self)
        ensures
            entry@ == with_bit(old(self)@, PAGE_ENTRY_WRITABLE_BIT, value),
            *final(self) == *final(entry),
    {
        set_bit(&mut self.0, PAGE_ENTRY_WRITABLE_BIT, value);
        self
    }

    /// Returns true if all writes to this page are written through the cache to main
    /// memory, and false otherwise.
    pub fn is_write_through(&self) -> (write_through: bool)
        ensures
            write_through == bit_of(self@, PAGE_ENTRY_WRITE_THROUGH_BIT),
    {
        get_bit(self.0, PAGE_ENTRY_WRITE_THROUGH_BIT)
    }

    /// Sets the cache write-through status of this page to the given value.
    pub fn set_write_through(&mut self, value: bool) -> (entry: &mut Self)
        ensures
            entry@ == with_bit(old(self)@, PAGE_ENTRY_WRITE_THROUGH_BIT, value),
            *final(self) == *final(entry),
    {
        set_bit(&mut self.0, PAGE_ENTRY_WRITE_THROUGH_BIT, value);
        self
    }

    /// Returns true if no caching is done for this page, and false otherwise.
    pub fn is_cache_disabled(&self) -> (disabled: bool)
        ensures
            disabled == bit_of(self@, PAGE_ENTRY_CACHE_DISABLE_BIT),
    {
        get_bit(self.0, PAGE_ENTRY_CACHE_DISABLE_BIT)
    }

    /// Sets the caching status of the page to the given value.
    pub fn set_cache_disabled(&mut self, value: bool) -> (entry: &mut Self)
        ensures
            entry@ == with_bit(old(self)@, PAGE_ENTRY_CACHE_DISABLE_BIT, value),
            *final(self) == *final(entry),
    {
        set_bit(&mut self.0, PAGE_ENTRY_CACHE_DISABLE_BIT, value);
        self
    }

    /// Returns true if the system has accessed this page by either a write OR a read, and
    /// false otherwise.
    pub fn is_accessed(&self) -> (accessed: bool)
        ensures
            accessed == bit_of(self@, PAGE_ENTRY_ACCESSED_BIT),
    {
        get_bit(self.0, PAGE_ENTRY_ACCESSED_BIT)
    }

    /// Updates the 'accessed' flag of this page entry to the given value.
    pub fn set_access(&mut self, value: bool) -> (entry: &mut Self)
        ensures
            entry@ == with_bit(old(self)@, PAGE_ENTRY_ACCESSED_BIT, value),
            *final(self) == *final(entry),
    {
        set_bit(&mut self.0, PAGE_ENTRY_ACCESSED_BIT, value);
        self
    }

    /// Returns true if the system has written data to this page, and false otherwise.
    pub fn is_dirty(&self) -> (dirty: bool)
        ensures
            dirty == bit_of(self@, PAGE_ENTRY_DIRTY_BIT),
    {
        get_bit(self.0, PAGE_ENTRY_DIRTY_BIT)
    }

    /// Updates the 'dirty' status of this page entry to the given value.
    pub fn set_dirty(&mut self, value: bool) -> (entry: &mut Self)
        ensures
            entry@ == with_bit(old(self)@, PAGE_ENTRY_DIRTY_BIT, value),
            *final(self) == *final(entry),
    {
        set_bit(&mut self.0, PAGE_ENTRY_DIRTY_BIT, value);
        self
    }

    /// Returns true if this entry (if it's located in a table other than the bottom level
    /// page tables) is a mapping to a large page, and false otherwise.
    pub fn is_large_page(&self) -> (large: bool)
        ensures
            large == bit_of(self@, PAGE_ENTRY_PAGE_SIZE_BIT),
    {
        get_bit(self.0, PAGE_ENTRY_PAGE_SIZE_BIT)
    }

    /// Sets the 'large page' status of this page entry to the given value.
    pub fn set_large_page(&mut self, value: bool) -> (entry: &mut Self)
        ensures
            entry@ == with_bit(old(self)@, PAGE_ENTRY_PAGE_SIZE_BIT, value),
            *final(self) == *final(entry),
    {
        set_bit(&mut self.0, PAGE_ENTRY_PAGE_SIZE_BIT, value);
        self
    }

    /// Returns true if this entry is global, eg, will not be evicted when the TLB is
    /// flushed on a cr3 change; and false otherwise.
    pub fn is_global(&self) -> (global: bool)
        ensures
            global == bit_of(self@, PAGE_ENTRY_GLOBAL_BIT),
    {
        get_bit(self.0, PAGE_ENTRY_GLOBAL_BIT)
    }

    /// Sets the 'global' status of this page entry to the given value.
    pub fn set_global(&mut self, value: bool) -> (entry: &mut Self)
        ensures
            entry@ == with_bit(old(self)@, PAGE_ENTRY_GLOBAL_BIT, value),
            *final(self) == *final(entry),
    {
        set_bit(&mut self.0, PAGE_ENTRY_GLOBAL_BIT, value);
        self
    }

    /// Returns the frame _number_ that this mapping maps to.
    pub fn frame_number(&self) -> (frame: u64)
        ensures
            frame == bits_of(self@, PAGE_ENTRY_PAGE_BITS_START, PAGE_ENTRY_PAGE_BITS_END),
    {
        get_range(self.0, PAGE_ENTRY_PAGE_BITS_START, PAGE_ENTRY_PAGE_BITS_END)
    }

    /// Updates the frame _number_ that this mapping maps to. The number must fit in the 39
    /// bits an entry has for it.
    pub fn set_frame_number(&mut self, frame: u64) -> (entry: &mut Self)
        requires
            frame < 0x80_0000_0000,
        ensures
            entry@ == with_bits(
                old(self)@,
                PAGE_ENTRY_PAGE_BITS_START,
                PAGE_ENTRY_PAGE_BITS_END,
                frame,
            ),
            *final(self) == *final(entry),
    {
        assert(frame < 0x80_0000_0000 ==> frame & !(((1u64 << 39u64) - 1) as u64) == 0)
            by (bit_vector);
        set_range(&mut self.0, PAGE_ENTRY_PAGE_BITS_START, PAGE_ENTRY_PAGE_BITS_END, frame);
        self
    }
}

/// A struct representing a page table at some level in the paging structure.
pub struct PageTable {
    /// The array of all page entries in this table.
    entries: [PageEntry; 512],
}

} // verus!
