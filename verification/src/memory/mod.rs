//! Physical memory as the kernel sees it before any memory manager exists.

pub mod endian;
pub mod paging;
pub mod physical;

pub use self::physical::PhysicalMemory;
