//! The generic address structure of ACPI.
use vstd::prelude::*;
use crate::acpi::bytes::{le_u64, read_u64};

verus! {

/// A register location: an address space, a bit range and an address.
#[derive(Debug, Clone, Copy)]
pub struct Gas {
    pub address_space_id: u8,
    pub register_bit_width: u8,
    pub register_bit_offset: u8,
    pub access_size: u8,
    pub address: u64,
}

/// Whether `g` holds the 12-byte structure laid out at `off` of `b`.
pub open spec fn gas_matches(g: Gas, b: Seq<u8>, off: int) -> bool {
    &&& g.address_space_id == b[off]
    &&& g.register_bit_width == b[off + 1]
    &&& g.register_bit_offset == b[off + 2]
    &&& g.access_size == b[off + 3]
    &&& g.address == le_u64(b, off + 4)
}

/// The generic address structure is 12 bytes: the address space, the
/// register bit width, the bit offset and the access size, one byte each,
/// then the 64-bit address, least significant byte first.
pub proof fn lemma_gas_layout(g: Gas, b: Seq<u8>, off: int)
    requires
        gas_matches(g, b, off),
    ensures
        g.address_space_id == b[off],
        g.register_bit_width == b[off + 1],
        g.register_bit_offset == b[off + 2],
        g.access_size == b[off + 3],
        g.address == b[off + 4] + b[off + 5] * 0x100 + b[off + 6] * 0x1_0000 + b[off + 7] * 0x100_0000
            + b[off + 8] * 0x1_0000_0000 + b[off + 9] * 0x100_0000_0000 + b[off + 10] * 0x1_0000_0000_0000
            + b[off + 11] * 0x100_0000_0000_0000,
{
    crate::acpi::bytes::lemma_le_values(b, off + 4);
}

impl Gas {
    /// Reads the structure at `off` of `b`.
    pub fn parse(b: &[u8], off: usize) -> (g: Gas)
        requires
            off + 12 <= b.len(),
        ensures
            gas_matches(g, b@, off as int),
    {
        Gas {
            address_space_id: b[off],
            register_bit_width: b[off + 1],
            register_bit_offset: b[off + 2],
            access_size: b[off + 3],
            address: read_u64(b, off + 4),
        }
    }
}

} // verus!
