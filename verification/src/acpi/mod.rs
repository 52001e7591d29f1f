//! ACPI tables: the root pointer, the system description tables and the
//! interrupt controller table.
pub mod bytes;
pub mod gas;
pub mod fadt;
pub mod sdt;
pub mod xsdt;
pub mod madt;

use vstd::prelude::*;
use std::collections::BTreeMap;
use crate::acpi::bytes::{le_u32, le_u64, checksum_ok, read_u32, read_u64, checksum_valid};
use crate::acpi::sdt::Sdt;
use crate::acpi::xsdt::Xsdt;

verus! {

/// Why an ACPI structure was rejected.
#[derive(Debug, Clone, Copy, PartialEq, Eq, Structural)]
pub enum AcpiError {
    /// Fewer bytes were given than the structure occupies.
    TooShort,
    /// The first 20 bytes of the root pointer do not add up to zero.
    RsdpV1Checksum,
    /// The 36 bytes of the root pointer do not add up to zero.
    RsdpV2Checksum,
    /// A table header gives a length of zero.
    ZeroLength,
    /// The bytes of a table do not add up to zero.
    SdtChecksum,
}

/// Size of an ACPI 2.0 root system description pointer, in bytes.
pub const RSDP_SIZE: usize = 36;

/// Size of the ACPI 1.0 part of the root pointer, in bytes.
pub const RSDP_V1_SIZE: usize = 20;

/// The ACPI 2.0 root system description pointer.
#[derive(Debug, Clone, Copy)]
pub struct Rsdp {
    pub signature: [u8; 8],
    pub checksum: u8,
    pub oem_id: [u8; 6],
    pub revision: u8,
    pub rsdt_address: u32,
    pub length: u32,
    pub xsdt_address: u64,
    pub extended_checksum: u8,
    pub reserved: [u8; 3],
}

/// Whether `r` holds the root pointer fields laid out at the start of `b`.
pub open spec fn rsdp_matches(r: Rsdp, b: Seq<u8>) -> bool {
    &&& r.signature@ == b.subrange(0, 8)
    &&& r.checksum == b[8]
    &&& r.oem_id@ == b.subrange(9, 15)
    &&& r.revision == b[15]
    &&& r.rsdt_address == le_u32(b, 16)
    &&& r.length == le_u32(b, 20)
    &&& r.xsdt_address == le_u64(b, 24)
    &&& r.extended_checksum == b[32]
    &&& r.reserved@ == b.subrange(33, 36)
}

impl Rsdp {
    /// Reads and checks the root pointer at the start of `bytes`: the
    /// ACPI 1.0 checksum over its first 20 bytes first, then the ACPI 2.0
    /// checksum over all 36.
    pub fn parse(bytes: &[u8]) -> (r: Result<Rsdp, AcpiError>)
        ensures
            bytes@.len() < RSDP_SIZE ==> r == Err::<Rsdp, AcpiError>(AcpiError::TooShort),
            bytes@.len() >= RSDP_SIZE ==> {
                &&& !checksum_ok(bytes@.subrange(0, 20)) ==> r == Err::<Rsdp, AcpiError>(AcpiError::RsdpV1Checksum)
                &&& checksum_ok(bytes@.subrange(0, 20)) && !checksum_ok(bytes@.subrange(0, 36))
                    ==> r == Err::<Rsdp, AcpiError>(AcpiError::RsdpV2Checksum)
                &&& checksum_ok(bytes@.subrange(0, 20)) && checksum_ok(bytes@.subrange(0, 36))
                    ==> (r matches Ok(p) && rsdp_matches(p, bytes@))
            },
    {
        if bytes.len() < RSDP_SIZE {
            return Err(AcpiError::TooShort);
        }
        if !checksum_valid(bytes, RSDP_V1_SIZE) {
            return Err(AcpiError::RsdpV1Checksum);
        }
        if !checksum_valid(bytes, RSDP_SIZE) {
            return Err(AcpiError::RsdpV2Checksum);
        }
        Ok(Rsdp {
            signature: sdt::read_array::<8>(bytes, 0),
            checksum: bytes[8],
            oem_id: sdt::read_array::<6>(bytes, 9),
            revision: bytes[15],
            rsdt_address: read_u32(bytes, 16),
            length: read_u32(bytes, 20),
            xsdt_address: read_u64(bytes, 24),
            extended_checksum: bytes[32],
            reserved: sdt::read_array::<3>(bytes, 33),
        })
    }
}

/// The key under which a table with this signature is filed: its four
/// bytes read as a little-endian number.
pub open spec fn signature_key(signature: [u8; 4]) -> u32 {
    le_u32(signature@, 0) as u32
}

/// The table of each signature after filing `tables` in order: a later
/// table replaces an earlier one of the same signature.
pub open spec fn entries_map_of(tables: Seq<(Sdt, u64)>) -> Map<u32, u64>
    decreases tables.len(),
{
    if tables.len() == 0 {
        Map::empty()
    } else {
        entries_map_of(tables.drop_last()).insert(
            signature_key(tables.last().0.signature),
            tables.last().1,
        )
    }
}

/// After filing `tables`, a signature key is present exactly when some
/// table has it, and it gives the address of the last such table.
pub proof fn lemma_entries_map_last_wins(tables: Seq<(Sdt, u64)>, key: u32)
    ensures
        entries_map_of(tables).contains_key(key)
            <==> exists|i: int| 0 <= i < tables.len() && #[trigger] signature_key(tables[i].0.signature) == key,
        forall|i: int|
            0 <= i < tables.len() && #[trigger] signature_key(tables[i].0.signature) == key
                && (forall|j: int| i < j < tables.len() ==> signature_key(#[trigger] tables[j].0.signature) != key)
                ==> entries_map_of(tables)[key] == tables[i].1,
    decreases tables.len(),
{
    if tables.len() > 0 {
        let rest = tables.drop_last();
        lemma_entries_map_last_wins(rest, key);
        assert forall|i: int| 0 <= i < rest.len() implies rest[i] == tables[i] by {}
        if signature_key(tables.last().0.signature) != key {
            if entries_map_of(tables).contains_key(key) {
                let i = choose|i: int| 0 <= i < rest.len() && #[trigger] signature_key(rest[i].0.signature) == key;
                assert(signature_key(tables[i].0.signature) == key);
            }
            if exists|i: int| 0 <= i < tables.len() && #[trigger] signature_key(tables[i].0.signature) == key {
                let i = choose|i: int| 0 <= i < tables.len() && #[trigger] signature_key(tables[i].0.signature) == key;
                assert(i < rest.len());
                assert(signature_key(rest[i].0.signature) == key);
            }
        } else {
            let last = tables.len() - 1;
            assert(signature_key(tables[last].0.signature) == key);
        }
    }
}

/// The key of a signature.
pub fn signature_key_of(signature: [u8; 4]) -> (k: u32)
    ensures
        k == signature_key(signature),
{
    read_u32(signature.as_slice(), 0)
}

/// Files `address` under `key`.
fn file_table(map: &mut BTreeMap<u32, u64>, key: u32, address: u64)
    ensures
        final(map)@ == old(map)@.insert(key, address),
{
    broadcast use vstd::laws_cmp::group_laws_cmp;
    map.insert(key, address);
}

/// The address filed under `key`, if any.
fn find_table(map: &BTreeMap<u32, u64>, key: u32) -> (r: Option<u64>)
    ensures
        r == (if map@.contains_key(key) { Some(map@[key]) } else { None::<u64> }),
{
    broadcast use vstd::laws_cmp::group_laws_cmp;
    broadcast use vstd::std_specs::btree::group_btree_axioms;
    match map.get(&key) {
        Some(a) => Some(*a),
        None => None,
    }
}

/// The extended system description table and the tables it lists, filed
/// by signature.
pub struct AcpiController {
    xsdt: Xsdt,
    entries_map: BTreeMap<u32, u64>,
}

impl AcpiController {
    /// The tables, by signature key, with the physical address of each.
    pub closed spec fn entries(&self) -> Map<u32, u64> {
        self.entries_map@
    }

    /// The extended system description table.
    pub closed spec fn table_list(&self) -> Xsdt {
        self.xsdt
    }

    /// Files each table of `tables` (a header and the physical address it
    /// was read from) under its signature; a later table of a signature
    /// replaces an earlier one.
    pub fn new(xsdt: Xsdt, tables: &[(Sdt, u64)]) -> (c: AcpiController)
        ensures
            c.entries() == entries_map_of(tables@),
            c.table_list() == xsdt,
    {
        let mut entries_map: BTreeMap<u32, u64> = BTreeMap::new();
        let mut i: usize = 0;
        while i < tables.len()
            invariant
                i <= tables@.len(),
                entries_map@ == entries_map_of(tables@.subrange(0, i as int)),
            decreases tables@.len() - i,
        {
            let (sdt, address) = tables[i];
            let key = signature_key_of(sdt.signature);
            file_table(&mut entries_map, key, address);
            proof {
                let s = tables@.subrange(0, i as int + 1);
                assert(s.drop_last() =~= tables@.subrange(0, i as int));
            }
            i = i + 1;
        }
        assert(tables@.subrange(0, tables@.len() as int) =~= tables@);
        AcpiController { xsdt, entries_map }
    }

    /// The tables, by signature key, with the physical address of each.
    pub fn get_entries_map(&self) -> (m: &BTreeMap<u32, u64>)
        ensures
            m@ == self.entries(),
    {
        &self.entries_map
    }

    /// The physical address of the table with `signature`, if there is one.
    pub fn get(&self, signature: [u8; 4]) -> (r: Option<u64>)
        ensures
            r == (if self.entries().contains_key(signature_key(signature)) {
                Some(self.entries()[signature_key(signature)])
            } else {
                None::<u64>
            }),
    {
        let key = signature_key_of(signature);
        find_table(&self.entries_map, key)
    }

    /// The extended system description table.
    pub fn xsdt(&self) -> (x: &Xsdt)
        ensures
            *x == self.table_list(),
    {
        &self.xsdt
    }
}

} // verus!
