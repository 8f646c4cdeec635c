//! The memory map as the firmware reports it: one legacy record per region,
//! with a numeric type code, and the conversion of such a record into a
//! [`MemoryRegion`]. How a record lies in memory is said in
//! [`crate::layout`].

use vstd::prelude::*;
use vstd::std_specs::convert::FromSpec;
use crate::addr::PhysAddr;
use crate::error::BootError;
use crate::region::{MemoryRegion, MemoryRegionType};

verus! {

/// The kinds of memory that the firmware tells apart. Each stands for one
/// type code of a legacy record, see [`E820MemoryRegionType::code`].
#[derive(Debug, Clone, Copy, PartialEq, Eq, Structural)]
pub enum E820MemoryRegionType {
    /// Normal RAM.
    Usable,
    /// Memory that must not be used.
    Reserved,
    /// ACPI reclaimable memory.
    AcpiReclaimable,
    /// ACPI NVS memory.
    AcpiNvs,
    /// An area that contains bad memory.
    BadMemory,
}

impl E820MemoryRegionType {
    /// The type code of this kind of memory.
    pub open spec fn spec_code(self) -> u32 {
        match self {
            E820MemoryRegionType::Usable => 1,
            E820MemoryRegionType::Reserved => 2,
            E820MemoryRegionType::AcpiReclaimable => 3,
            E820MemoryRegionType::AcpiNvs => 4,
            E820MemoryRegionType::BadMemory => 5,
        }
    }

    /// The kind of memory that a type code stands for. Zero and every code
    /// above 5 stand for none.
    pub open spec fn spec_from_code(code: u32) -> Option<E820MemoryRegionType> {
        if code == 1 {
            Some(E820MemoryRegionType::Usable)
        } else if code == 2 {
            Some(E820MemoryRegionType::Reserved)
        } else if code == 3 {
            Some(E820MemoryRegionType::AcpiReclaimable)
        } else if code == 4 {
            Some(E820MemoryRegionType::AcpiNvs)
        } else if code == 5 {
            Some(E820MemoryRegionType::BadMemory)
        } else {
            None
        }
    }

    /// The type code of this kind of memory: 1 for usable RAM, 2 for reserved
    /// memory, 3 for ACPI reclaimable memory, 4 for ACPI NVS memory, 5 for bad
    /// memory. It is not the number that a cast of the variant gives, which
    /// counts from zero.
    #[verifier::when_used_as_spec(spec_code)]
    pub fn code(self) -> (code: u32)
        ensures
            code == self.spec_code(),
    {
        match self {
            E820MemoryRegionType::Usable => 1,
            E820MemoryRegionType::Reserved => 2,
            E820MemoryRegionType::AcpiReclaimable => 3,
            E820MemoryRegionType::AcpiNvs => 4,
            E820MemoryRegionType::BadMemory => 5,
        }
    }

    /// The kind of memory that a type code stands for, `None` for a code that
    /// is none of 1 to 5.
    pub fn from_code(code: u32) -> (kind: Option<E820MemoryRegionType>)
        ensures
            kind == Self::spec_from_code(code),
    {
        match code {
            1 => Some(E820MemoryRegionType::Usable),
            2 => Some(E820MemoryRegionType::Reserved),
            3 => Some(E820MemoryRegionType::AcpiReclaimable),
            4 => Some(E820MemoryRegionType::AcpiNvs),
            5 => Some(E820MemoryRegionType::BadMemory),
            _ => None,
        }
    }

    /// The codes 1 to 5, and no others, stand for a kind of memory, and
    /// codes and kinds correspond one to one.
    pub proof fn lemma_codes(code: u32, kind: E820MemoryRegionType)
        ensures
            Self::spec_from_code(code) is Some <==> 1 <= code <= 5,
            Self::spec_from_code(code) == Some(kind) <==> kind.spec_code() == code,
            1 <= kind.spec_code() <= 5,
    {
    }
}

impl From<E820MemoryRegionType> for MemoryRegionType {
    /// The classification of a kind of memory that the firmware reports: the
    /// one of the same name.
    fn from(kind: E820MemoryRegionType) -> (region_type: MemoryRegionType) {
        match kind {
            E820MemoryRegionType::Usable => MemoryRegionType::Usable,
            E820MemoryRegionType::Reserved => MemoryRegionType::Reserved,
            E820MemoryRegionType::AcpiReclaimable => MemoryRegionType::AcpiReclaimable,
            E820MemoryRegionType::AcpiNvs => MemoryRegionType::AcpiNvs,
            E820MemoryRegionType::BadMemory => MemoryRegionType::BadMemory,
        }
    }
}

impl vstd::std_specs::convert::FromSpecImpl<E820MemoryRegionType> for MemoryRegionType {
    open spec fn obeys_from_spec() -> bool {
        true
    }

    open spec fn from_spec(kind: E820MemoryRegionType) -> MemoryRegionType {
        match kind {
            E820MemoryRegionType::Usable => MemoryRegionType::Usable,
            E820MemoryRegionType::Reserved => MemoryRegionType::Reserved,
            E820MemoryRegionType::AcpiReclaimable => MemoryRegionType::AcpiReclaimable,
            E820MemoryRegionType::AcpiNvs => MemoryRegionType::AcpiNvs,
            E820MemoryRegionType::BadMemory => MemoryRegionType::BadMemory,
        }
    }
}

/// One entry of the memory map as the firmware reports it.
#[derive(Debug, Clone, Copy, PartialEq, Eq, Structural)]
pub struct E820MemoryRegion {
    /// Where the region starts: a raw physical address.
    pub start_addr: u64,
    /// The length of the region in bytes.
    pub len: u64,
    /// The type code of the region, see [`E820MemoryRegionType`].
    pub region_type: u32,
    /// Extended attributes. They play no part in the conversion.
    pub acpi_extended_attributes: u32,
}

/// The classification that a type code stands for:
///
/// | code | classification |
/// |------|----------------|
/// | 1 | `Usable` |
/// | 2 | `Reserved` |
/// | 3 | `AcpiReclaimable` |
/// | 4 | `AcpiNvs` |
/// | 5 | `BadMemory` |
///
/// Every other code stands for none. No code stands for `InUse`, which later
/// stages set.
pub open spec fn region_type_of_code(code: u32) -> Option<MemoryRegionType> {
    if code == 1 {
        Some(MemoryRegionType::Usable)
    } else if code == 2 {
        Some(MemoryRegionType::Reserved)
    } else if code == 3 {
        Some(MemoryRegionType::AcpiReclaimable)
    } else if code == 4 {
        Some(MemoryRegionType::AcpiNvs)
    } else if code == 5 {
        Some(MemoryRegionType::BadMemory)
    } else {
        None
    }
}

/// The codes 1 to 5, and no others, stand for a classification: the one that
/// bears the name of the kind of memory for which the firmware uses the
/// code. No code stands for `InUse`.
pub proof fn lemma_region_type_of_code(code: u32)
    ensures
        region_type_of_code(code) is Some <==> 1 <= code <= 5,
        region_type_of_code(code) != Some(MemoryRegionType::InUse),
        region_type_of_code(code) == (match E820MemoryRegionType::spec_from_code(code) {
            Some(kind) => Some(MemoryRegionType::from_spec(kind)),
            None => None,
        }),
{
}

impl MemoryRegion {
    /// What the conversion of a legacy record gives: the region that starts
    /// at the record's address, has its length and the classification of its
    /// type code; an error for a type code that stands for no classification
    /// and, with such a code, for a start that is no physical address.
    pub open spec fn spec_try_from(region: E820MemoryRegion) -> Result<MemoryRegion, BootError> {
        match region_type_of_code(region.region_type) {
            None => Err(BootError::InvalidRegionType(region.region_type)),
            Some(region_type) => if PhysAddr::is_valid(region.start_addr) {
                Ok(
                    MemoryRegion {
                        start_addr: PhysAddr::spec_new(region.start_addr),
                        len: region.len,
                        region_type,
                    },
                )
            } else {
                Err(BootError::InvalidAddress(region.start_addr))
            },
        }
    }

    /// A record is converted exactly when its type code is one of 1 to 5 and
    /// its start is a physical address. The region then has the record's
    /// start and length and the classification of its code. A code that is
    /// none of 1 to 5 is reported before anything else, with the code.
    pub proof fn lemma_conversion(region: E820MemoryRegion)
        ensures
            Self::spec_try_from(region) is Ok <==> 1 <= region.region_type <= 5
                && PhysAddr::is_valid(region.start_addr),
            Self::spec_try_from(region) matches Ok(result) ==> {
                &&& result.start_addr@ == region.start_addr
                &&& result.len == region.len
                &&& Some(result.region_type) == region_type_of_code(region.region_type)
            },
            !(1 <= region.region_type <= 5) ==> Self::spec_try_from(region) == Err::<
                MemoryRegion,
                BootError,
            >(BootError::InvalidRegionType(region.region_type)),
    {
        PhysAddr::lemma_view_of_new(region.start_addr);
    }

    /// The extended attributes have no effect: two records that agree in
    /// start, length and type code are converted alike.
    pub proof fn lemma_attributes_ignored(region: E820MemoryRegion, other: E820MemoryRegion)
        requires
            region.start_addr == other.start_addr,
            region.len == other.len,
            region.region_type == other.region_type,
        ensures
            Self::spec_try_from(region) == Self::spec_try_from(other),
    {
    }

    /// Converts a legacy record whose type code is one of 1 to 5 and whose
    /// start is a physical address. The extended attributes are dropped.
    pub fn from(region: E820MemoryRegion) -> (result: MemoryRegion)
        requires
            1 <= region.region_type <= 5,
            PhysAddr::is_valid(region.start_addr),
        ensures
            Ok::<MemoryRegion, BootError>(result) == Self::spec_try_from(region),
            result.start_addr@ == region.start_addr,
            result.len == region.len,
            Some(result.region_type) == region_type_of_code(region.region_type),
    {
        let kind = E820MemoryRegionType::from_code(region.region_type).unwrap();
        MemoryRegion {
            start_addr: PhysAddr::new(region.start_addr),
            len: region.len,
            region_type: MemoryRegionType::from(kind),
        }
    }

    /// Converts a legacy record, or says why it cannot be converted: its type
    /// code is none of 1 to 5, or else its start is no physical address.
    pub fn try_from(region: E820MemoryRegion) -> (result: Result<MemoryRegion, BootError>)
        ensures
            result == Self::spec_try_from(region),
            result matches Ok(converted) ==> converted.start_addr@ == region.start_addr,
    {
        match E820MemoryRegionType::from_code(region.region_type) {
            None => Err(BootError::InvalidRegionType(region.region_type)),
            Some(kind) => match PhysAddr::try_new(region.start_addr) {
                None => Err(BootError::InvalidAddress(region.start_addr)),
                Some(start_addr) => Ok(
                    MemoryRegion {
                        start_addr,
                        len: region.len,
                        region_type: MemoryRegionType::from(kind),
                    },
                ),
            },
        }
    }
}

} // verus!
