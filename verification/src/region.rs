//! Classified spans of physical memory.

use vstd::prelude::*;
use crate::addr::PhysAddr;

verus! {

/// How a span of physical memory may be used. The set is closed: there is no
/// variant for memory of unknown kind.
#[derive(Debug, Clone, Copy, PartialEq, Eq, Structural)]
pub enum MemoryRegionType {
    /// Free RAM, which the kernel may claim.
    Usable,
    /// RAM that is taken already, by the bootloader or by the kernel image.
    /// The firmware reports no such region; later stages set this type.
    InUse,
    /// Reserved by the firmware, never to be used as RAM.
    Reserved,
    /// Holds ACPI tables; free once the tables are no longer needed.
    AcpiReclaimable,
    /// ACPI non-volatile storage, which must be preserved.
    AcpiNvs,
    /// Faulty memory, never to be used.
    BadMemory,
}

/// One span of physical memory and its classification. A length of zero is
/// allowed, and nothing is asked of how regions lie to one another.
#[derive(Debug, Clone, Copy, PartialEq, Eq, Structural)]
pub struct MemoryRegion {
    /// Where the region starts.
    pub start_addr: PhysAddr,
    /// The length of the region in bytes.
    pub len: u64,
    /// How the memory of the region may be used.
    pub region_type: MemoryRegionType,
}

impl MemoryRegion {
    /// Two regions are the same region exactly when they agree in start
    /// address, length and type; `==` on regions compares these three.
    pub proof fn lemma_equal_by_fields(self, other: MemoryRegion)
        ensures
            self == other <==> {
                &&& self.start_addr@ == other.start_addr@
                &&& self.len == other.len
                &&& self.region_type == other.region_type
            },
    {
        self.start_addr.lemma_new_of_view();
        other.start_addr.lemma_new_of_view();
    }
}

} // verus!
