//! How a legacy record lies in memory.
//!
//! | offset | size | field |
//! |--------|------|-------|
//! | 0 | 8 | `start_addr` |
//! | 8 | 8 | `len` |
//! | 16 | 4 | `region_type` |
//! | 20 | 4 | `acpi_extended_attributes` |
//!
//! A record takes 24 bytes. The fields follow one another in this order
//! without padding, and each number stands with its lowest byte first, as the
//! x86 firmware that reports the memory map writes it.

use vstd::prelude::*;
use vstd::arithmetic::div_mod::lemma_fundamental_div_mod_converse;
use crate::e820::E820MemoryRegion;

verus! {

/// The size of a legacy record in bytes.
pub const E820_RECORD_SIZE: usize = 24;

/// The 32-bit number that four bytes of `bytes` hold, the lowest byte first,
/// from the index `at` on.
pub open spec fn le_u32(bytes: Seq<u8>, at: int) -> u32
    recommends
        0 <= at,
        at + 4 <= bytes.len(),
{
    (bytes[at] + 0x100 * bytes[at + 1] + 0x1_0000 * bytes[at + 2] + 0x100_0000 * bytes[at
        + 3]) as u32
}

/// The 64-bit number that eight bytes of `bytes` hold, the lowest byte
/// first, from the index `at` on.
pub open spec fn le_u64(bytes: Seq<u8>, at: int) -> u64
    recommends
        0 <= at,
        at + 8 <= bytes.len(),
{
    (le_u32(bytes, at) + 0x1_0000_0000 * le_u32(bytes, at + 4)) as u64
}

/// The four bytes of a 32-bit number, the lowest first.
pub open spec fn u32_le_bytes(value: u32) -> Seq<u8> {
    seq![
        (value % 0x100) as u8,
        (value / 0x100 % 0x100) as u8,
        (value / 0x1_0000 % 0x100) as u8,
        (value / 0x100_0000) as u8,
    ]
}

/// The eight bytes of a 64-bit number, the lowest first.
pub open spec fn u64_le_bytes(value: u64) -> Seq<u8> {
    u32_le_bytes((value % 0x1_0000_0000) as u32) + u32_le_bytes((value / 0x1_0000_0000) as u32)
}

/// Reading gives back the number whose bytes were written.
pub proof fn lemma_le_u32_of_bytes(value: u32)
    ensures
        u32_le_bytes(value).len() == 4,
        le_u32(u32_le_bytes(value), 0) == value,
{
}

/// Writing gives back the four bytes from which the number was read.
pub proof fn lemma_bytes_of_le_u32(bytes: Seq<u8>)
    requires
        bytes.len() == 4,
    ensures
        u32_le_bytes(le_u32(bytes, 0)) == bytes,
{
    let b0: int = bytes[0] as int;
    let b1: int = bytes[1] as int;
    let b2: int = bytes[2] as int;
    let b3: int = bytes[3] as int;
    let value: int = b0 + 0x100 * b1 + 0x1_0000 * b2 + 0x100_0000 * b3;
    lemma_fundamental_div_mod_converse(value, 0x100, b1 + 0x100 * b2 + 0x1_0000 * b3, b0);
    lemma_fundamental_div_mod_converse(value, 0x1_0000, b2 + 0x100 * b3, b0 + 0x100 * b1);
    lemma_fundamental_div_mod_converse(value, 0x100_0000, b3, b0 + 0x100 * b1 + 0x1_0000 * b2);
    lemma_fundamental_div_mod_converse(b1 + 0x100 * b2 + 0x1_0000 * b3, 0x100, b2 + 0x100 * b3, b1);
    lemma_fundamental_div_mod_converse(b2 + 0x100 * b3, 0x100, b3, b2);
    assert(u32_le_bytes(le_u32(bytes, 0)) =~= bytes);
}

/// Reading gives back the number whose bytes were written.
pub proof fn lemma_le_u64_of_bytes(value: u64)
    ensures
        u64_le_bytes(value).len() == 8,
        le_u64(u64_le_bytes(value), 0) == value,
{
    let low = (value % 0x1_0000_0000) as u32;
    let high = (value / 0x1_0000_0000) as u32;
    lemma_le_u32_of_bytes(low);
    lemma_le_u32_of_bytes(high);
    let bytes = u64_le_bytes(value);
    assert(bytes.subrange(0, 4) =~= u32_le_bytes(low));
    assert(bytes.subrange(4, 8) =~= u32_le_bytes(high));
    lemma_le_u32_at(bytes, 0);
    lemma_le_u32_at(bytes, 4);
}

/// Writing gives back the eight bytes from which the number was read.
pub proof fn lemma_bytes_of_le_u64(bytes: Seq<u8>)
    requires
        bytes.len() == 8,
    ensures
        u64_le_bytes(le_u64(bytes, 0)) == bytes,
{
    let low = le_u32(bytes, 0);
    let high = le_u32(bytes, 4);
    lemma_le_u32_at(bytes, 0);
    lemma_le_u32_at(bytes, 4);
    lemma_bytes_of_le_u32(bytes.subrange(0, 4));
    lemma_bytes_of_le_u32(bytes.subrange(4, 8));
    lemma_fundamental_div_mod_converse(low + 0x1_0000_0000 * high, 0x1_0000_0000, high as int, low as int);
    assert(u64_le_bytes(le_u64(bytes, 0)) =~= bytes);
}

/// A number is read from the four bytes at its place alone.
proof fn lemma_le_u32_at(bytes: Seq<u8>, at: int)
    requires
        0 <= at,
        at + 4 <= bytes.len(),
    ensures
        le_u32(bytes, at) == le_u32(bytes.subrange(at, at + 4), 0),
{
}

/// A number is read from the eight bytes at its place alone.
proof fn lemma_le_u64_at(bytes: Seq<u8>, at: int)
    requires
        0 <= at,
        at + 8 <= bytes.len(),
    ensures
        le_u64(bytes, at) == le_u64(bytes.subrange(at, at + 8), 0),
{
}

fn read_u32(bytes: &[u8; E820_RECORD_SIZE], at: usize) -> (value: u32)
    requires
        at + 4 <= E820_RECORD_SIZE,
    ensures
        value == le_u32(bytes@, at as int),
{
    let b0: u32 = bytes[at] as u32;
    let b1: u32 = bytes[at + 1] as u32;
    let b2: u32 = bytes[at + 2] as u32;
    let b3: u32 = bytes[at + 3] as u32;
    b0 + 0x100 * b1 + 0x1_0000 * b2 + 0x100_0000 * b3
}

fn read_u64(bytes: &[u8; E820_RECORD_SIZE], at: usize) -> (value: u64)
    requires
        at + 8 <= E820_RECORD_SIZE,
    ensures
        value == le_u64(bytes@, at as int),
{
    let low: u64 = read_u32(bytes, at) as u64;
    let high: u64 = read_u32(bytes, at + 4) as u64;
    low + 0x1_0000_0000 * high
}

fn write_u32(bytes: &mut [u8; E820_RECORD_SIZE], at: usize, value: u32)
    requires
        at + 4 <= E820_RECORD_SIZE,
    ensures
        final(bytes)@ == Seq::new(
            E820_RECORD_SIZE as nat,
            |i: int|
                if at <= i < at + 4 {
                    u32_le_bytes(value)[i - at]
                } else {
                    old(bytes)@[i]
                },
        ),
{
    bytes[at] = (value % 0x100) as u8;
    bytes[at + 1] = (value / 0x100 % 0x100) as u8;
    bytes[at + 2] = (value / 0x1_0000 % 0x100) as u8;
    bytes[at + 3] = (value / 0x100_0000) as u8;
}

fn write_u64(bytes: &mut [u8; E820_RECORD_SIZE], at: usize, value: u64)
    requires
        at + 8 <= E820_RECORD_SIZE,
    ensures
        final(bytes)@ == Seq::new(
            E820_RECORD_SIZE as nat,
            |i: int|
                if at <= i < at + 8 {
                    u64_le_bytes(value)[i - at]
                } else {
                    old(bytes)@[i]
                },
        ),
{
    write_u32(bytes, at, (value % 0x1_0000_0000) as u32);
    write_u32(bytes, at + 4, (value / 0x1_0000_0000) as u32);
}

impl E820MemoryRegion {
    /// The record that 24 bytes hold: the start address in the bytes 0 to 7,
    /// the length in the bytes 8 to 15, the type code in the bytes 16 to 19
    /// and the extended attributes in the bytes 20 to 23, each with its
    /// lowest byte first.
    pub open spec fn spec_from_bytes(bytes: Seq<u8>) -> E820MemoryRegion
        recommends
            bytes.len() == E820_RECORD_SIZE,
    {
        E820MemoryRegion {
            start_addr: le_u64(bytes, 0),
            len: le_u64(bytes, 8),
            region_type: le_u32(bytes, 16),
            acpi_extended_attributes: le_u32(bytes, 20),
        }
    }

    /// The 24 bytes of the record: the four fields one behind the other,
    /// without padding, each with its lowest byte first.
    pub open spec fn spec_to_bytes(self) -> Seq<u8> {
        u64_le_bytes(self.start_addr) + u64_le_bytes(self.len) + u32_le_bytes(self.region_type)
            + u32_le_bytes(self.acpi_extended_attributes)
    }

    /// Reads a record from the 24 bytes in which the firmware reports it.
    pub fn from_bytes(bytes: &[u8; E820_RECORD_SIZE]) -> (region: E820MemoryRegion)
        ensures
            region == Self::spec_from_bytes(bytes@),
    {
        E820MemoryRegion {
            start_addr: read_u64(bytes, 0),
            len: read_u64(bytes, 8),
            region_type: read_u32(bytes, 16),
            acpi_extended_attributes: read_u32(bytes, 20),
        }
    }

    /// Writes the record as the 24 bytes in which the firmware reports it.
    pub fn to_bytes(&self) -> (bytes: [u8; E820_RECORD_SIZE])
        ensures
            bytes@ == self.spec_to_bytes(),
    {
        let mut bytes: [u8; E820_RECORD_SIZE] = [0u8; E820_RECORD_SIZE];
        write_u64(&mut bytes, 0, self.start_addr);
        write_u64(&mut bytes, 8, self.len);
        write_u32(&mut bytes, 16, self.region_type);
        write_u32(&mut bytes, 20, self.acpi_extended_attributes);
        assert(bytes@ =~= self.spec_to_bytes());
        bytes
    }

    /// A record takes 24 bytes, and reading them gives the record back.
    pub proof fn lemma_from_bytes_of_to_bytes(self)
        ensures
            self.spec_to_bytes().len() == E820_RECORD_SIZE,
            Self::spec_from_bytes(self.spec_to_bytes()) == self,
    {
        let bytes = self.spec_to_bytes();
        lemma_le_u64_of_bytes(self.start_addr);
        lemma_le_u64_of_bytes(self.len);
        lemma_le_u32_of_bytes(self.region_type);
        lemma_le_u32_of_bytes(self.acpi_extended_attributes);
        assert(bytes.subrange(0, 8) =~= u64_le_bytes(self.start_addr));
        assert(bytes.subrange(8, 16) =~= u64_le_bytes(self.len));
        assert(bytes.subrange(16, 20) =~= u32_le_bytes(self.region_type));
        assert(bytes.subrange(20, 24) =~= u32_le_bytes(self.acpi_extended_attributes));
        lemma_le_u64_at(bytes, 0);
        lemma_le_u64_at(bytes, 8);
        lemma_le_u32_at(bytes, 16);
        lemma_le_u32_at(bytes, 20);
    }

    /// Any 24 bytes are the bytes of the record that they hold: no two byte
    /// strings stand for one record.
    pub proof fn lemma_to_bytes_of_from_bytes(bytes: Seq<u8>)
        requires
            bytes.len() == E820_RECORD_SIZE,
        ensures
            Self::spec_from_bytes(bytes).spec_to_bytes() == bytes,
    {
        let region = Self::spec_from_bytes(bytes);
        lemma_le_u64_at(bytes, 0);
        lemma_le_u64_at(bytes, 8);
        lemma_le_u32_at(bytes, 16);
        lemma_le_u32_at(bytes, 20);
        lemma_bytes_of_le_u64(bytes.subrange(0, 8));
        lemma_bytes_of_le_u64(bytes.subrange(8, 16));
        lemma_bytes_of_le_u32(bytes.subrange(16, 20));
        lemma_bytes_of_le_u32(bytes.subrange(20, 24));
        assert(region.spec_to_bytes() =~= bytes);
    }
}

} // verus!
