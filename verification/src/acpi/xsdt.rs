//! The extended system description table: the list of the other tables.
use vstd::prelude::*;
use crate::acpi::AcpiError;
use crate::acpi::bytes::{le_u32, le_u64, checksum_ok, read_u64};
use crate::acpi::sdt::{Sdt, SDT_SIZE, sdt_matches};

verus! {

/// The extended system description table: its header and the physical
/// addresses of the tables it lists.
pub struct Xsdt {
    sdt: Sdt,
    addresses: Vec<u64>,
}

/// The physical address of entry `i` of the table `b`.
pub open spec fn xsdt_entry(b: Seq<u8>, i: int) -> u64 {
    le_u64(b, 36 + 8 * i) as u64
}

/// The number of entries of the table `b`.
pub open spec fn xsdt_entry_count(b: Seq<u8>) -> nat {
    ((le_u32(b, 4) - 36) / 8) as nat
}

impl Xsdt {
    /// Reads and checks the table `table`: its header, its checksum over
    /// `length` bytes, and the 8-byte addresses that follow the header.
    pub fn init(table: &[u8]) -> (r: Result<Xsdt, AcpiError>)
        ensures
            table@.len() < SDT_SIZE ==> r == Err::<Xsdt, AcpiError>(AcpiError::TooShort),
            table@.len() >= SDT_SIZE ==> {
                let length = le_u32(table@, 4);
                &&& length == 0 ==> r == Err::<Xsdt, AcpiError>(AcpiError::ZeroLength)
                &&& length != 0 && (length > table@.len() || length < SDT_SIZE)
                    ==> r == Err::<Xsdt, AcpiError>(AcpiError::TooShort)
                &&& SDT_SIZE <= length <= table@.len() ==> {
                    &&& !checksum_ok(table@.subrange(0, length as int))
                        ==> r == Err::<Xsdt, AcpiError>(AcpiError::SdtChecksum)
                    &&& checksum_ok(table@.subrange(0, length as int)) ==> (r matches Ok(x) && {
                        &&& sdt_matches(x.header(), table@)
                        &&& x.addresses().len() == xsdt_entry_count(table@)
                        &&& forall|i: int| 0 <= i < x.addresses().len()
                            ==> #[trigger] x.addresses()[i] == xsdt_entry(table@, i)
                    })
                }
            },
    {
        let sdt = match Sdt::parse(table) {
            Some(s) => s,
            None => return Err(AcpiError::TooShort),
        };
        if sdt.length == 0 {
            return Err(AcpiError::ZeroLength);
        }
        if sdt.length as usize > table.len() || sdt.length < SDT_SIZE as u32 {
            return Err(AcpiError::TooShort);
        }
        match sdt.check(table) {
            Ok(()) => {},
            Err(e) => return Err(e),
        }
        let count: usize = ((sdt.length - SDT_SIZE as u32) / 8) as usize;
        let mut addresses: Vec<u64> = Vec::new();
        let mut i: usize = 0;
        while i < count
            invariant
                count == xsdt_entry_count(table@),
                36 + 8 * count <= sdt.length <= table@.len(),
                sdt.length == le_u32(table@, 4),
                i <= count,
                addresses@.len() == i,
                forall|j: int| 0 <= j < i ==> #[trigger] addresses@[j] == xsdt_entry(table@, j),
            decreases count - i,
        {
            let a = read_u64(table, 36 + 8 * i);
            addresses.push(a);
            i = i + 1;
        }
        Ok(Xsdt { sdt, addresses })
    }

    /// The header of the table.
    pub closed spec fn header(&self) -> Sdt {
        self.sdt
    }

    /// The header of the table.
    pub fn sdt(&self) -> (s: Sdt)
        ensures
            s == self.header(),
    {
        self.sdt
    }

    /// The physical addresses of the listed tables, in order.
    pub closed spec fn addresses(&self) -> Seq<u64> {
        self.addresses@
    }

    /// The physical addresses of the listed tables, in order.
    pub fn entry_addresses(&self) -> (a: &Vec<u64>)
        ensures
            a@ == self.addresses(),
    {
        &self.addresses
    }
}

} // verus!
