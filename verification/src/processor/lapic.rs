//! Provides an abstraction over the Local Advanced Programmable Interrupt Controller,
//! which is used for interrupt handling, timing, and other specifics.
//!
//! The controller's registers are memory mapped. This module computes where a register
//! lies and what its content means; reading the register itself is left to the caller.

use vstd::prelude::*;
use crate::bits::{bits_of, get_range_u32};

verus! {

/// The offset of the APIC ID register from the base address of the LAPIC.
pub const LAPIC_ID_REGISTER_OFFSET: usize = 0x20;

/// The bit index where the APIC ID starts in the ID register.
pub const LAPIC_ID_RANGE_START: u8 = 24;

/// The bit index just past the APIC ID in the ID register.
pub const LAPIC_ID_RANGE_END: u8 = 27;

/// An abstraction over the Local Advanced Programmable Interrupt Controller.
#[derive(Debug, Clone, Copy)]
pub struct LAPIC {
    /// The address that the LAPIC is located at; should be page-aligned.
    address: u64,
}

impl LAPIC {
    /// The physical address that the LAPIC is located at.
    pub closed spec fn spec_address(&self) -> u64 {
        self.address
    }

    /// The physical address that the LAPIC is located at.
    pub fn address(&self) -> (address: u64)
        ensures
            address == self.spec_address(),
    {
        self.address
    }

    /// The controller whose registers start at `address`.
    pub fn from_address(address: u64) -> (lapic: LAPIC)
        ensures
            lapic.spec_address() == address,
    {
        LAPIC { address: address }
    }

    /// Returns the physical address of the 32-bit register at the given byte offset from
    /// the APIC base address.
    pub fn register32(&self, offset: usize) -> (register: u64)
        requires
            self.spec_address() + offset <= u64::MAX,
        ensures
            register == self.spec_address() + offset,
    {
        self.address + offset as u64
    }

    /// Returns the physical address of the 32-bit ID register.
    pub fn id_register(&self) -> (register: u64)
        requires
            self.spec_address() + LAPIC_ID_REGISTER_OFFSET <= u64::MAX,
        ensures
            register == self.spec_address() + LAPIC_ID_REGISTER_OFFSET,
    {
        self.register32(LAPIC_ID_REGISTER_OFFSET)
    }

    /// Returns the APIC ID of this LAPIC, given the content of its ID register: the bits
    /// of the register from `LAPIC_ID_RANGE_START` up to `LAPIC_ID_RANGE_END`.
    pub fn id(&self, id_register: u32) -> (id: u32)
        ensures
            id == bits_of(id_register as u64, LAPIC_ID_RANGE_START, LAPIC_ID_RANGE_END),
    {
        get_range_u32(id_register, LAPIC_ID_RANGE_START, LAPIC_ID_RANGE_END)
    }
}

} // verus!
