//! The data a bootloader hands to a kernel when control passes to the kernel's
//! entry point: a bounded, ordered list of physical memory regions, each with
//! a classification of how the memory may be used.
//!
//! The firmware reports the memory map as legacy records
//! ([`E820MemoryRegion`]) with a numeric type code. The bootloader converts
//! each record into a [`MemoryRegion`] and appends it to the memory map of a
//! [`BootInfo`], which it then hands to the kernel. Nothing here allocates:
//! the memory map has room for 32 regions and lives in the payload itself.
//!
//! Two things cannot be put right at this stage of the boot: a record with a
//! type code that stands for no classification, and a region for which the
//! memory map has no room. [`MemoryRegion::from`] and [`BootInfo::push`] are
//! for callers that have excluded them; [`MemoryRegion::try_from`] and
//! [`BootInfo::try_push`] report them as a [`BootError`], on which the caller
//! halts.

pub mod addr;
pub mod boot_info;
pub mod e820;
pub mod error;
pub mod layout;
pub mod region;

pub use addr::PhysAddr;
pub use boot_info::BootInfo;
pub use e820::{E820MemoryRegion, E820MemoryRegionType};
pub use error::BootError;
pub use region::{MemoryRegion, MemoryRegionType};
