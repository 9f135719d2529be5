//! Firmware-table discovery and hardware-topology decoding for an x86-64 kernel's early boot.
//!
//! The ACPI tables are decoded from a borrowed image of physical memory, so every
//! operation is a function of the bytes handed in and never touches an address outside
//! the image. Page-table entries, the local interrupt controller id and the text console
//! are the small collaborators that consume what the tables describe.

pub mod acpi;
pub mod bits;
pub mod memory;
pub mod processor;
pub mod vga;
