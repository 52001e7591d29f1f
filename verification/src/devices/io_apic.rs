//! I/O APICs: finding them in the MADT and decoding their registers.
use vstd::prelude::*;
use crate::acpi::madt::{IOApic, InterruptController, Madt};

verus! {

/// Index of the identification register.
pub const IOAPICID: u8 = 0x00;

/// Index of the version register.
pub const IOAPICVER: u8 = 0x01;

/// Index of the arbitration register.
pub const IOAPICARB: u8 = 0x02;

/// Index of the first redirection table register.
pub const IOAPICREDTBL: u8 = 0x10;

/// The I/O APIC records among `records`, in order.
pub open spec fn io_apics_in(records: Seq<InterruptController>) -> Seq<IOApic>
    decreases records.len(),
{
    if records.len() == 0 {
        Seq::empty()
    } else {
        let rest = io_apics_in(records.drop_first());
        match records[0] {
            InterruptController::IOApic(a) => seq![a] + rest,
            _ => rest,
        }
    }
}

/// The I/O APICs of a list of records are those of each record in turn:
/// an I/O APIC record gives its own, any other record none.
pub proof fn lemma_io_apics_in_parts(a: Seq<InterruptController>, b: Seq<InterruptController>, x: IOApic, other: InterruptController)
    ensures
        io_apics_in(Seq::empty()) == Seq::<IOApic>::empty(),
        io_apics_in(seq![InterruptController::IOApic(x)]) == seq![x],
        !(other is IOApic) ==> io_apics_in(seq![other]) == Seq::<IOApic>::empty(),
        io_apics_in(a + b) == io_apics_in(a) + io_apics_in(b),
    decreases a.len(),
{
    reveal_with_fuel(io_apics_in, 2);
    assert(seq![InterruptController::IOApic(x)].drop_first() =~= Seq::<InterruptController>::empty());
    assert(seq![other].drop_first() =~= Seq::<InterruptController>::empty());
    assert(seq![x] + Seq::<IOApic>::empty() =~= seq![x]);
    if a.len() == 0 {
        assert(a + b =~= b);
        assert(Seq::<IOApic>::empty() + io_apics_in(b) =~= io_apics_in(b));
    } else {
        lemma_io_apics_in_parts(a.drop_first(), b, x, other);
        assert((a + b).drop_first() =~= a.drop_first() + b);
        assert((a + b)[0] == a[0]);
        match a[0] {
            InterruptController::IOApic(y) => {
                assert(seq![y] + (io_apics_in(a.drop_first()) + io_apics_in(b))
                    =~= (seq![y] + io_apics_in(a.drop_first())) + io_apics_in(b));
            },
            _ => {},
        }
    }
}

/// The I/O APIC records of the MADT, in the order the table lists them,
/// up to the end of the records the iterator hands out. A record of length
/// zero, which the iterator would hand out again and again, ends the list.
pub fn io_apics(madt: &Madt) -> (v: Vec<IOApic>)
    ensures
        v@ == io_apics_in(madt.records()),
{
    let mut found: Vec<IOApic> = Vec::new();
    let mut it = madt.get_iter();
    loop
        invariant
            it.table() == *madt,
            found@ + io_apics_in(it.remaining()) == io_apics_in(madt.records()),
        decreases it.remaining().len(),
    {
        let ghost before = it.remaining();
        let start = it.offset();
        match it.next() {
            Some(c) => {
                if it.offset() <= start {
                    proof {
                        reveal_with_fuel(crate::acpi::madt::records_from, 2);
                        assert(before =~= Seq::<InterruptController>::empty());
                        assert(found@ =~= io_apics_in(madt.records()));
                    }
                    return found;
                }
                proof {
                    reveal_with_fuel(crate::acpi::madt::records_from, 2);
                    assert(before.len() > 0);
                    assert(before.drop_first() == it.remaining());
                }
                match c {
                    InterruptController::IOApic(a) => {
                        found.push(a);
                        proof {
                            assert(io_apics_in(before) == seq![a] + io_apics_in(it.remaining()));
                            assert(found@ + io_apics_in(it.remaining()) =~= io_apics_in(madt.records()));
                        }
                    },
                    _ => {},
                }
            },
            None => {
                proof {
                    assert(before =~= Seq::<InterruptController>::empty());
                    assert(found@ =~= io_apics_in(madt.records()));
                }
                return found;
            },
        }
    }
}

/// The APIC identifier in an identification register value: bits 24..31,
/// of which the upper four are kept.
pub open spec fn apic_id_of(id_register: u32) -> u8 {
    ((id_register >> 24u32) & 0xf0u32) as u8
}

/// The version in a version register value: its low byte.
pub open spec fn apic_version_of(version_register: u32) -> u8 {
    (version_register % 256) as u8
}

/// The number of redirection entries in a version register value: one
/// more than bits 16..31, kept to a byte.
pub open spec fn redirection_entries_of(version_register: u32) -> u8 {
    (((version_register >> 16u32) + 1) % 256) as u8
}

/// The decoded register facts, by arithmetic on the register values: the
/// APIC identifier is the top four bits of the identification register,
/// kept in the upper half of a byte; the version is the low byte of the
/// version register; the number of redirection entries is one more than
/// the version register's upper 16 bits, modulo 256.
pub proof fn lemma_register_decoding(id_register: u32, version_register: u32)
    ensures
        apic_id_of(id_register) == (id_register / 0x1000_0000) * 16,
        apic_version_of(version_register) == version_register % 0x100,
        redirection_entries_of(version_register) == (version_register / 0x1_0000 + 1) % 0x100,
{
    assert(((id_register >> 24u32) & 0xf0u32) == (id_register / 0x1000_0000u32) * 16u32) by (bit_vector);
    assert((version_register >> 16u32) == version_register / 0x1_0000u32) by (bit_vector);
}

/// An I/O APIC with the facts read from its registers.
#[derive(Debug, Clone, Copy)]
pub struct IOApicController {
    pub io_apic: IOApic,
    pub apic_id: u8,
    pub apic_ver: u8,
    pub redir_entry_count: u8,
}

impl IOApicController {
    /// The controller of `io_apic`, from three register reads: the
    /// identification register (`id_register`), then the version register
    /// twice, for the version (`version_register`) and for the number of
    /// redirection entries (`redirection_register`).
    pub fn new(io_apic: IOApic, id_register: u32, version_register: u32, redirection_register: u32) -> (c: IOApicController)
        ensures
            c.io_apic == io_apic,
            c.apic_id == apic_id_of(id_register),
            c.apic_ver == apic_version_of(version_register),
            c.redir_entry_count == redirection_entries_of(redirection_register),
    {
        assert((id_register >> 24u32) & 0xf0u32 <= 0xf0u32) by (bit_vector);
        assert(redirection_register >> 16u32 <= 0xffffu32) by (bit_vector);
        let apic_id = ((id_register >> 24) & 0xf0) as u8;
        let apic_ver = (version_register % 256) as u8;
        let redir_entry_count = (((redirection_register >> 16) + 1) % 256) as u8;
        IOApicController { io_apic, apic_id, apic_ver, redir_entry_count }
    }

    /// Address of the register-select register: the register index to
    /// access is written here.
    pub fn select_address(&self) -> (a: u64)
        ensures
            a == self.io_apic.io_apic_address,
    {
        self.io_apic.io_apic_address as u64
    }

    /// Address of the window register, through which the selected
    /// register is read and written: 16 bytes above the select register.
    pub fn window_address(&self) -> (a: u64)
        ensures
            a == self.io_apic.io_apic_address + 0x10,
    {
        self.io_apic.io_apic_address as u64 + 0x10
    }
}

} // verus!
