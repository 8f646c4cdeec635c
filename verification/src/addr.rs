//! Physical addresses.
//!
//! On x86_64 a physical address has 52 bits. [`PhysAddr`] holds a raw 64-bit
//! value that has passed the validation of the `x86_64` crate, and keeps it
//! apart from plain integers and from virtual addresses.

use vstd::prelude::*;

verus! {

/// The first value that is no physical address: `2^52`. Every bit from bit 52
/// upwards of a physical address is zero.
pub const PHYS_ADDR_END: u64 = 0x0010_0000_0000_0000;

/// Makes an `x86_64::PhysAddr` with `x86_64::PhysAddr::new` and reads it back
/// with `as_u64`.
///
/// Trusted: `new` panics when a bit in the range 52..64 is set, which the
/// precondition excludes; on every other value it stores the value itself,
/// and `as_u64` returns what is stored.
#[verifier::external_body]
fn validated(addr: u64) -> (raw: u64)
    requires
        addr < PHYS_ADDR_END,
    ensures
        raw == addr,
{
    x86_64::PhysAddr::new(addr).as_u64()
}

/// Offers a raw value to `x86_64::PhysAddr::try_new` and reads the address
/// back with `as_u64` where it was accepted.
///
/// Trusted: `try_new` accepts exactly the values in which no bit in the range
/// 52..64 is set, and the address it makes holds the value itself.
#[verifier::external_body]
fn try_validated(addr: u64) -> (raw: Option<u64>)
    ensures
        raw == (if addr < PHYS_ADDR_END {
            Some(addr)
        } else {
            None
        }),
{
    match x86_64::PhysAddr::try_new(addr) {
        Ok(valid) => Some(valid.as_u64()),
        Err(_) => None,
    }
}

/// A validated physical address.
///
/// The raw value is private: an address is made by [`PhysAddr::new`] or
/// [`PhysAddr::try_new`] only, so every address that executable code holds is
/// below [`PHYS_ADDR_END`].
#[derive(Debug, Clone, Copy, PartialEq, Eq, Structural)]
pub struct PhysAddr {
    raw: u64,
}

impl View for PhysAddr {
    type V = u64;

    /// The raw 64-bit value of the address.
    closed spec fn view(&self) -> u64 {
        self.raw
    }
}

impl PhysAddr {
    #[verifier::type_invariant]
    spec fn in_range(self) -> bool {
        self.raw < PHYS_ADDR_END
    }

    /// Whether a raw value is a physical address.
    pub open spec fn is_valid(addr: u64) -> bool {
        addr < PHYS_ADDR_END
    }

    /// The address whose raw value is `addr`.
    pub closed spec fn spec_new(addr: u64) -> PhysAddr {
        PhysAddr { raw: addr }
    }

    /// The raw value of the address made from `addr` is `addr`.
    pub proof fn lemma_view_of_new(addr: u64)
        ensures
            Self::spec_new(addr)@ == addr,
    {
    }

    /// An address is determined by its raw value.
    pub proof fn lemma_new_of_view(self)
        ensures
            Self::spec_new(self@) == self,
    {
    }

    /// Makes the address `addr`.
    pub fn new(addr: u64) -> (result: PhysAddr)
        requires
            Self::is_valid(addr),
        ensures
            result == Self::spec_new(addr),
            result@ == addr,
    {
        PhysAddr { raw: validated(addr) }
    }

    /// Makes the address `addr` if it is one: `None` exactly when a bit from
    /// bit 52 upwards is set.
    pub fn try_new(addr: u64) -> (result: Option<PhysAddr>)
        ensures
            result == (if Self::is_valid(addr) {
                Some(Self::spec_new(addr))
            } else {
                None
            }),
            result matches Some(valid) ==> valid@ == addr,
    {
        match try_validated(addr) {
            Some(raw) => Some(PhysAddr { raw }),
            None => None,
        }
    }

    /// The raw value of the address.
    pub fn as_u64(self) -> (raw: u64)
        ensures
            raw == self@,
            Self::is_valid(raw),
    {
        proof {
            use_type_invariant(&self);
        }
        self.raw
    }
}

} // verus!
