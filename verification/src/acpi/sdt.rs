//! The header that every ACPI system description table starts with.
use vstd::prelude::*;
use crate::acpi::AcpiError;
use crate::acpi::bytes::{le_u32, checksum_ok, read_u32, checksum_valid};
use crate::memory::{Frame, FrameIter};

verus! {

/// Size of the header, in bytes.
pub const SDT_SIZE: u8 = 36;

/// The header of a system description table.
#[derive(Debug, Clone, Copy)]
pub struct Sdt {
    pub signature: [u8; 4],
    pub length: u32,
    pub revision: u8,
    pub checksum: u8,
    pub oem_id: [u8; 6],
    pub oem_table_id: [u8; 8],
    pub oem_revision: u32,
    pub creator_id: u32,
    pub creator_revision: u32,
}

/// Whether `s` holds the header fields laid out at the start of `b`.
pub open spec fn sdt_matches(s: Sdt, b: Seq<u8>) -> bool {
    &&& s.signature@ == b.subrange(0, 4)
    &&& s.length == le_u32(b, 4)
    &&& s.revision == b[8]
    &&& s.checksum == b[9]
    &&& s.oem_id@ == b.subrange(10, 16)
    &&& s.oem_table_id@ == b.subrange(16, 24)
    &&& s.oem_revision == le_u32(b, 24)
    &&& s.creator_id == le_u32(b, 28)
    &&& s.creator_revision == le_u32(b, 32)
}

/// The header is the signature (bytes 0 to 3), the 32-bit length at 4,
/// the revision at 8, the checksum at 9, the OEM id (10 to 15), the OEM
/// table id (16 to 23), then the OEM revision, creator id and creator
/// revision, 32 bits each at 24, 28 and 32, least significant byte first.
pub proof fn lemma_sdt_layout(s: Sdt, b: Seq<u8>)
    requires
        b.len() >= 36,
        sdt_matches(s, b),
    ensures
        forall|i: int| 0 <= i < 4 ==> s.signature@[i] == b[i],
        s.length == b[4] + b[5] * 0x100 + b[6] * 0x1_0000 + b[7] * 0x100_0000,
        s.revision == b[8],
        s.checksum == b[9],
        forall|i: int| 0 <= i < 6 ==> s.oem_id@[i] == b[10 + i],
        forall|i: int| 0 <= i < 8 ==> s.oem_table_id@[i] == b[16 + i],
        s.oem_revision == b[24] + b[25] * 0x100 + b[26] * 0x1_0000 + b[27] * 0x100_0000,
        s.creator_id == b[28] + b[29] * 0x100 + b[30] * 0x1_0000 + b[31] * 0x100_0000,
        s.creator_revision == b[32] + b[33] * 0x100 + b[34] * 0x1_0000 + b[35] * 0x100_0000,
{
    crate::acpi::bytes::lemma_le_values(b, 4);
    crate::acpi::bytes::lemma_le_values(b, 24);
    crate::acpi::bytes::lemma_le_values(b, 28);
    crate::acpi::bytes::lemma_le_values(b, 32);
    assert forall|i: int| 0 <= i < 4 implies s.signature@[i] == b[i] by {
        assert(s.signature@[i] == b.subrange(0, 4)[i]);
    }
    assert forall|i: int| 0 <= i < 6 implies s.oem_id@[i] == b[10 + i] by {
        assert(s.oem_id@[i] == b.subrange(10, 16)[i]);
    }
    assert forall|i: int| 0 <= i < 8 implies s.oem_table_id@[i] == b[16 + i] by {
        assert(s.oem_table_id@[i] == b.subrange(16, 24)[i]);
    }
}

/// Copies `N` bytes from `off` into an array.
pub fn read_array<const N: usize>(b: &[u8], off: usize) -> (a: [u8; N])
    requires
        off + N <= b.len(),
    ensures
        a@ == b@.subrange(off as int, off + N),
{
    let mut a: [u8; N] = [0u8; N];
    let mut i: usize = 0;
    while i < N
        invariant
            off + N <= b.len(),
            i <= N,
            a@.len() == N,
            forall|j: int| 0 <= j < i ==> a@[j] == b@[off + j],
        decreases N - i,
    {
        a[i] = b[off + i];
        i = i + 1;
    }
    assert(a@ =~= b@.subrange(off as int, off + N));
    a
}

impl Sdt {
    /// Reads the header at the start of `bytes`; `None` if fewer than
    /// `SDT_SIZE` bytes are given.
    pub fn parse(bytes: &[u8]) -> (r: Option<Sdt>)
        ensures
            r is Some <==> bytes@.len() >= SDT_SIZE,
            r matches Some(s) ==> sdt_matches(s, bytes@),
    {
        if bytes.len() < SDT_SIZE as usize {
            return None;
        }
        Some(Sdt {
            signature: read_array::<4>(bytes, 0),
            length: read_u32(bytes, 4),
            revision: bytes[8],
            checksum: bytes[9],
            oem_id: read_array::<6>(bytes, 10),
            oem_table_id: read_array::<8>(bytes, 16),
            oem_revision: read_u32(bytes, 24),
            creator_id: read_u32(bytes, 28),
            creator_revision: read_u32(bytes, 32),
        })
    }

    /// Checks the table whose header is `self` and whose bytes are
    /// `table`: its length must not be zero and its `length` bytes must add
    /// up to zero modulo 256.
    pub fn check(&self, table: &[u8]) -> (r: Result<(), AcpiError>)
        requires
            sdt_matches(*self, table@),
            self.length <= table@.len(),
        ensures
            self.length == 0 ==> r == Err::<(), AcpiError>(AcpiError::ZeroLength),
            self.length != 0 ==> (r is Ok <==> checksum_ok(table@.subrange(0, self.length as int))),
            self.length != 0 && !checksum_ok(table@.subrange(0, self.length as int))
                ==> r == Err::<(), AcpiError>(AcpiError::SdtChecksum),
    {
        if self.length == 0 {
            return Err(AcpiError::ZeroLength);
        }
        if checksum_valid(table, self.length as usize) {
            Ok(())
        } else {
            Err(AcpiError::SdtChecksum)
        }
    }

    /// The frames a table at `address` of `length` bytes needs mapped: the
    /// frame of `address`, then the frames from the one of
    /// `address + 4096` to the one of `address + length`.
    pub fn frames(address: usize, length: u32) -> (r: (Frame, FrameIter))
        requires
            address + 4096 <= usize::MAX,
            address + length <= usize::MAX,
        ensures
            r.0@ == address as nat / 4096,
            r.1.start() == (address + 4096) as nat / 4096,
            r.1.end() == (address + length) as nat / 4096,
    {
        let first = Frame::containing_address(address);
        let rest = Frame::range_inclusive(
            Frame::containing_address(address + 4096),
            Frame::containing_address(address + length as usize),
        );
        (first, rest)
    }

    /// The end of the memory that mapping `frames(address, length)` makes
    /// readable: the end of the frame of `address + length`.
    pub fn mapped_end(address: usize, length: u32) -> (e: usize)
        requires
            ((address + length) / 4096 + 1) * 4096 <= usize::MAX,
        ensures
            e == ((address + length) as nat / 4096 + 1) * 4096,
    {
        let last = (address + length as usize) / 4096;
        (last + 1) * 4096
    }
}

} // verus!
