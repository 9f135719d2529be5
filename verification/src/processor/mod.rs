//! Provides abstractions over x86_64 processor data structures and controllers.

pub mod lapic;

pub use self::lapic::LAPIC;
