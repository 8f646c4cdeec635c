//! The conditions on which the hand-off cannot go on.

use vstd::prelude::*;

verus! {

/// A condition that ends the boot. There is no degraded mode to fall back
/// to: a region of unknown kind could be taken for free RAM, and a region
/// that is dropped could have been reserved or faulty. The functions of this
/// crate that can meet one of these conditions report it and change nothing;
/// what to do then (halt, with a diagnostic) is the caller's part.
#[derive(Debug, Clone, Copy, PartialEq, Eq, Structural)]
pub enum BootError {
    /// A legacy record carries a type code that is none of 1 to 5. Holds the
    /// code.
    InvalidRegionType(u32),
    /// A legacy record starts at a value that is no physical address. Holds
    /// the value.
    InvalidAddress(u64),
    /// A region was offered to a memory map that is full.
    CapacityExceeded,
}

} // verus!
