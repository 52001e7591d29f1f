//! Little-endian fields and byte checksums of ACPI tables.
use vstd::prelude::*;

verus! {

/// The little-endian 16-bit value at `off`.
pub open spec fn le_u16(b: Seq<u8>, off: int) -> nat {
    (b[off] as nat) + (b[off + 1] as nat) * 0x100
}

/// The little-endian 32-bit value at `off`.
pub open spec fn le_u32(b: Seq<u8>, off: int) -> nat {
    le_u16(b, off) + le_u16(b, off + 2) * 0x1_0000
}

/// The little-endian 64-bit value at `off`.
pub open spec fn le_u64(b: Seq<u8>, off: int) -> nat {
    le_u32(b, off) + le_u32(b, off + 4) * 0x1_0000_0000
}

/// The little-endian values are the bytes weighted by powers of 256, the
/// byte at `off` least significant: two, four and eight bytes.
pub proof fn lemma_le_values(b: Seq<u8>, off: int)
    ensures
        le_u16(b, off) == b[off] + b[off + 1] * 0x100,
        le_u32(b, off) == b[off] + b[off + 1] * 0x100 + b[off + 2] * 0x1_0000 + b[off + 3] * 0x100_0000,
        le_u64(b, off) == b[off] + b[off + 1] * 0x100 + b[off + 2] * 0x1_0000 + b[off + 3] * 0x100_0000
            + b[off + 4] * 0x1_0000_0000 + b[off + 5] * 0x100_0000_0000 + b[off + 6] * 0x1_0000_0000_0000
            + b[off + 7] * 0x100_0000_0000_0000,
{
}

/// The sum of the bytes, as an integer.
pub open spec fn byte_sum(s: Seq<u8>) -> nat
    decreases s.len(),
{
    if s.len() == 0 {
        0
    } else {
        byte_sum(s.drop_last()) + s.last() as nat
    }
}

/// Whether the bytes add up to zero modulo 256, the ACPI checksum rule.
pub open spec fn checksum_ok(s: Seq<u8>) -> bool {
    byte_sum(s) % 256 == 0
}

/// Reads the little-endian 16-bit value at `off`.
pub fn read_u16(b: &[u8], off: usize) -> (v: u16)
    requires
        off + 2 <= b.len(),
    ensures
        v == le_u16(b@, off as int),
{
    (b[off] as u16) + (b[off + 1] as u16) * 0x100
}

/// Reads the little-endian 32-bit value at `off`.
pub fn read_u32(b: &[u8], off: usize) -> (v: u32)
    requires
        off + 4 <= b.len(),
    ensures
        v == le_u32(b@, off as int),
{
    let lo = read_u16(b, off);
    let hi = read_u16(b, off + 2);
    (lo as u32) + (hi as u32) * 0x1_0000
}

/// Reads the little-endian 64-bit value at `off`.
pub fn read_u64(b: &[u8], off: usize) -> (v: u64)
    requires
        off + 8 <= b.len(),
    ensures
        v == le_u64(b@, off as int),
{
    let lo = read_u32(b, off);
    let hi = read_u32(b, off + 4);
    (lo as u64) + (hi as u64) * 0x1_0000_0000
}

/// The sum of the first `count` bytes, modulo 256.
pub fn sum_mod_256(b: &[u8], count: usize) -> (r: u8)
    requires
        count <= b@.len(),
    ensures
        r == byte_sum(b@.subrange(0, count as int)) % 256,
{
    let mut acc: u8 = 0;
    let mut i: usize = 0;
    while i < count
        invariant
            i <= count <= b@.len(),
            acc == byte_sum(b@.subrange(0, i as int)) % 256,
        decreases count - i,
    {
        proof {
            let s = b@.subrange(0, i as int + 1);
            assert(s.drop_last() =~= b@.subrange(0, i as int));
            assert(s.last() == b@[i as int]);
        }
        acc = ((acc as u16 + b[i] as u16) % 256) as u8;
        i = i + 1;
    }
    acc
}

/// Whether the first `count` bytes add up to zero modulo 256.
pub fn checksum_valid(b: &[u8], count: usize) -> (r: bool)
    requires
        count <= b@.len(),
    ensures
        r == checksum_ok(b@.subrange(0, count as int)),
{
    sum_mod_256(b, count) == 0
}

} // verus!
