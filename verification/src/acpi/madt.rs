//! The multiple APIC description table: the interrupt controllers.
use vstd::prelude::*;
use crate::acpi::bytes::{le_u16, le_u32, read_u16, read_u32};
use crate::acpi::sdt::{Sdt, SDT_SIZE, sdt_matches};

verus! {

/// Flags of the MADT.
#[derive(Debug, Clone, Copy, PartialEq, Eq, Structural)]
pub struct MAcpiFlags {
    bits: u32,
}

impl View for MAcpiFlags {
    type V = u32;

    /// The raw bits.
    closed spec fn view(&self) -> u32 {
        self.bits
    }
}

impl MAcpiFlags {
    /// The system also has a PC-AT-compatible dual 8259 setup.
    #[allow(non_snake_case)]
    pub fn PCAT_COMPAT() -> (f: MAcpiFlags)
        ensures
            f@ == 1,
    {
        MAcpiFlags { bits: 1 }
    }

    /// The flags of `bits` that this type names; other bits are dropped.
    pub fn from_bits_truncate(bits: u32) -> (f: MAcpiFlags)
        ensures
            f@ == bits & 1,
    {
        MAcpiFlags { bits: bits & 1 }
    }

    /// The raw bits.
    pub fn bits(&self) -> (b: u32)
        ensures
            b == self@,
    {
        self.bits
    }

    /// Whether every flag of `other` is set in `self`.
    pub fn contains(&self, other: MAcpiFlags) -> (r: bool)
        ensures
            r == (self@ & other@ == other@),
    {
        self.bits & other.bits == other.bits
    }
}

/// The type and length that every interrupt controller record starts with.
#[derive(Debug, Clone, Copy, PartialEq, Eq, Structural)]
pub struct InterruptControllerHeader {
    pub structure_type: u8,
    pub length: u8,
}

/// An I/O APIC record (type 1, 12 bytes).
#[derive(Debug, Clone, Copy, PartialEq, Eq, Structural)]
pub struct IOApic {
    pub header: InterruptControllerHeader,
    pub io_apic_id: u8,
    pub reserved: u8,
    pub io_apic_address: u32,
    pub global_system_interrupt_base: u32,
}

/// An interrupt source override record (type 2, 10 bytes).
#[derive(Debug, Clone, Copy, PartialEq, Eq, Structural)]
pub struct InterruptSourceOverride {
    pub header: InterruptControllerHeader,
    pub bus: u8,
    pub source: u8,
    pub global_system_interrupt: u32,
    pub flags: u16,
}

/// An interrupt controller record of the MADT.
#[derive(Debug, Clone, Copy, PartialEq, Eq, Structural)]
pub enum InterruptController {
    IOApic(IOApic),
    InterruptSourceOverride(InterruptSourceOverride),
    /// A record of another type, given by its type.
    Another(u8),
}

/// Offset of the first interrupt controller record.
pub const RECORDS_OFFSET: usize = 44;

/// The I/O APIC record at `off` of `d`.
pub open spec fn io_apic_at(d: Seq<u8>, off: int) -> IOApic {
    IOApic {
        header: InterruptControllerHeader { structure_type: d[off], length: d[off + 1] },
        io_apic_id: d[off + 2],
        reserved: d[off + 3],
        io_apic_address: le_u32(d, off + 4) as u32,
        global_system_interrupt_base: le_u32(d, off + 8) as u32,
    }
}

/// The interrupt source override record at `off` of `d`.
pub open spec fn source_override_at(d: Seq<u8>, off: int) -> InterruptSourceOverride {
    InterruptSourceOverride {
        header: InterruptControllerHeader { structure_type: d[off], length: d[off + 1] },
        bus: d[off + 2],
        source: d[off + 3],
        global_system_interrupt: le_u32(d, off + 4) as u32,
        flags: le_u16(d, off + 8) as u16,
    }
}

/// The record at `off` of `d`, in a table of `length` bytes, with the
/// offset of the record after it: `off` plus the record's length byte.
/// `None` at the end of the table (`off == length`). The record is
/// classified by its type byte alone: an I/O APIC (type 1), an interrupt
/// source override (type 2), or another type. Its fields are read from the
/// bytes at `off` whatever its length byte says, so a record shorter than
/// its type's fields is still handed out, with the bytes that follow it.
/// `d` is the memory readable from the table's start on, which may run past
/// `length`; `None` also where the fields lie beyond `d` (a header of 2
/// bytes, an I/O APIC of 12, an override of 10), as there is no memory to
/// read them from, or where the next offset is beyond `usize::MAX`.
pub open spec fn next_record(d: Seq<u8>, length: nat, off: nat) -> Option<(InterruptController, nat)> {
    if off == length || off + 2 > d.len() {
        None
    } else {
        let ty = d[off as int];
        let next = off + d[off + 1int] as nat;
        if next > usize::MAX {
            None
        } else if ty == 1 {
            if off + 12 > d.len() {
                None
            } else {
                Some((InterruptController::IOApic(io_apic_at(d, off as int)), next))
            }
        } else if ty == 2 {
            if off + 10 > d.len() {
                None
            } else {
                Some((InterruptController::InterruptSourceOverride(source_override_at(d, off as int)), next))
            }
        } else {
            Some((InterruptController::Another(ty), next))
        }
    }
}

/// The records the iterator hands out from `off` on, up to the first
/// `None`. A record of length zero would be handed out again and again;
/// the sequence stops before it.
pub open spec fn records_from(d: Seq<u8>, length: nat, off: nat) -> Seq<InterruptController>
    decreases d.len() - off,
{
    match next_record(d, length, off) {
        Some((c, next)) => if next <= off {
            Seq::empty()
        } else if next >= d.len() {
            seq![c]
        } else {
            seq![c] + records_from(d, length, next)
        },
        None => Seq::empty(),
    }
}

/// Once the iterator is at or past the end of the bytes, no record follows.
pub proof fn lemma_no_record_past_bytes(d: Seq<u8>, length: nat, off: nat)
    requires
        off >= d.len(),
    ensures
        next_record(d, length, off) is None,
        records_from(d, length, off) == Seq::<InterruptController>::empty(),
{
}

/// What the iterator hands out at `off`, read off the bytes of the table
/// as they lie in memory on a little-endian machine: a record is handed out
/// exactly when `off` is not the table's length, its header and the fields
/// of its type lie within `d`, and the next offset fits in a `usize`; the
/// next offset is `off` plus the length byte; a type 1 record is an I/O
/// APIC, a type 2 record an interrupt source override, both with every
/// field taken from its place in the record, least significant byte
/// first; any other type is handed out by its type alone.
pub proof fn lemma_next_record_reads_bytes(d: Seq<u8>, length: nat, off: nat)
    ensures
        next_record(d, length, off) is Some <==> {
            &&& off != length
            &&& off + 2 <= d.len()
            &&& off + d[off + 1int] <= usize::MAX
            &&& d[off as int] == 1 ==> off + 12 <= d.len()
            &&& d[off as int] == 2 ==> off + 10 <= d.len()
        },
        next_record(d, length, off) matches Some((c, next)) ==> {
            let o = off as int;
            &&& next == off + d[o + 1]
            &&& d[o] == 1 ==> (c matches InterruptController::IOApic(a) && {
                &&& a.header.structure_type == 1
                &&& a.header.length == d[o + 1]
                &&& a.io_apic_id == d[o + 2]
                &&& a.reserved == d[o + 3]
                &&& a.io_apic_address == d[o + 4] + d[o + 5] * 0x100 + d[o + 6] * 0x1_0000 + d[o + 7] * 0x100_0000
                &&& a.global_system_interrupt_base
                    == d[o + 8] + d[o + 9] * 0x100 + d[o + 10] * 0x1_0000 + d[o + 11] * 0x100_0000
            })
            &&& d[o] == 2 ==> (c matches InterruptController::InterruptSourceOverride(s) && {
                &&& s.header.structure_type == 2
                &&& s.header.length == d[o + 1]
                &&& s.bus == d[o + 2]
                &&& s.source == d[o + 3]
                &&& s.global_system_interrupt
                    == d[o + 4] + d[o + 5] * 0x100 + d[o + 6] * 0x1_0000 + d[o + 7] * 0x100_0000
                &&& s.flags == d[o + 8] + d[o + 9] * 0x100
            })
            &&& d[o] != 1 && d[o] != 2 ==> c == InterruptController::Another(d[o])
        },
{
}

/// The record at `off` of `d`, classified by its type byte.
pub open spec fn record_at(d: Seq<u8>, off: int) -> InterruptController {
    if d[off] == 1 {
        InterruptController::IOApic(io_apic_at(d, off))
    } else if d[off] == 2 {
        InterruptController::InterruptSourceOverride(source_override_at(d, off))
    } else {
        InterruptController::Another(d[off])
    }
}

/// Whether the fields of the record at `off` lie within `d`.
pub open spec fn fields_within(d: Seq<u8>, off: nat) -> bool {
    &&& off + 2 <= d.len()
    &&& d[off as int] == 1 ==> off + 12 <= d.len()
    &&& d[off as int] == 2 ==> off + 10 <= d.len()
}

/// Whether the record at `offs[i]` of `d` has its fields within `d`, is at
/// least 2 bytes long, and is followed by the record at `offs[i + 1]`.
pub open spec fn linked(d: Seq<u8>, offs: Seq<nat>, i: int) -> bool {
    &&& fields_within(d, offs[i])
    &&& d[offs[i] + 1int] >= 2
    &&& offs[i + 1] == offs[i] + d[offs[i] + 1int]
}

/// Records laid end to end up to the table's length are handed out one
/// each, in order, and then the records end: where the records at
/// `offs[0]`, `offs[1]`, ... each are at least 2 bytes long, lead to the
/// next, and the last offset is the table's length, the records from
/// `offs[0]` on are those at `offs[0]` up to the one before the last.
pub proof fn lemma_chained_records(d: Seq<u8>, length: nat, offs: Seq<nat>)
    requires
        offs.len() >= 1,
        offs.last() == length,
        length <= usize::MAX,
        forall|i: int| 0 <= i < offs.len() - 1 ==> #[trigger] linked(d, offs, i),
    ensures
        offs[0] <= length,
        records_from(d, length, offs[0])
            == Seq::new((offs.len() - 1) as nat, |i: int| record_at(d, offs[i] as int)),
    decreases offs.len(),
{
    reveal_with_fuel(records_from, 2);
    if offs.len() == 1 {
        assert(records_from(d, length, offs[0])
            =~= Seq::new(0, |i: int| record_at(d, offs[i] as int)));
    } else {
        let rest = offs.drop_first();
        assert forall|i: int| 0 <= i < rest.len() - 1 implies #[trigger] linked(d, rest, i) by {
            assert(linked(d, offs, i + 1));
        }
        lemma_chained_records(d, length, rest);
        assert(linked(d, offs, 0));
        let off = offs[0];
        let next = offs[1];
        assert(next == rest[0]);
        assert(off < next);
        assert(next_record(d, length, off) == Some((record_at(d, off as int), next)));
        let tail = Seq::new((rest.len() - 1) as nat, |i: int| record_at(d, rest[i] as int));
        let whole = Seq::new((offs.len() - 1) as nat, |i: int| record_at(d, offs[i] as int));
        if next >= d.len() {
            if offs.len() > 2 {
                assert(linked(d, offs, 1));
                assert(false);
            }
            assert(records_from(d, length, off) =~= whole);
        } else {
            assert(records_from(d, length, off) == seq![record_at(d, off as int)] + tail);
            assert(seq![record_at(d, off as int)] + tail =~= whole);
        }
    }
}

/// The multiple APIC description table.
pub struct Madt {
    header: Sdt,
    local_interrupt_controller_address: u32,
    flags: u32,
    data: Vec<u8>,
}

impl Madt {
    /// The bytes of the table.
    pub closed spec fn data(&self) -> Seq<u8> {
        self.data@
    }

    /// The header of the table.
    pub closed spec fn header(&self) -> Sdt {
        self.header
    }

    /// The interrupt controller records of the table.
    pub open spec fn records(&self) -> Seq<InterruptController> {
        records_from(self.data(), self.header().length as nat, RECORDS_OFFSET as nat)
    }

    /// Reads the table whose memory is `table`: the bytes from the table's
    /// first byte on, at least its fixed part (44 bytes), and as many after
    /// its end as are readable (up to the end of its last mapped frame), as
    /// the records' fields are read from there; `None` if `table` is
    /// shorter than the fixed part.
    pub fn new(table: &[u8]) -> (r: Option<Madt>)
        ensures
            r is Some <==> table@.len() >= RECORDS_OFFSET,
            r matches Some(m) ==> {
                &&& m.data() == table@
                &&& sdt_matches(m.header(), table@)
                &&& m.local_interrupt_controller_address() == le_u32(table@, 36)
                &&& m.flags()@ == le_u32(table@, 40) as u32 & 1
            },
    {
        if table.len() < RECORDS_OFFSET {
            return None;
        }
        let header = match Sdt::parse(table) {
            Some(h) => h,
            None => return None,
        };
        let mut data: Vec<u8> = Vec::new();
        let mut i: usize = 0;
        while i < table.len()
            invariant
                i <= table@.len(),
                data@ == table@.subrange(0, i as int),
            decreases table@.len() - i,
        {
            data.push(table[i]);
            i = i + 1;
        }
        assert(data@ =~= table@);
        Some(Madt {
            header,
            local_interrupt_controller_address: read_u32(table, 36),
            flags: read_u32(table, 40),
            data,
        })
    }

    /// The physical address of the local interrupt controllers.
    pub closed spec fn local_interrupt_controller_address(&self) -> u32 {
        self.local_interrupt_controller_address
    }

    /// The physical address of the local interrupt controllers.
    pub fn local_apic_address(&self) -> (a: u32)
        ensures
            a == self.local_interrupt_controller_address(),
    {
        self.local_interrupt_controller_address
    }

    /// The flags of the table.
    pub closed spec fn flags(&self) -> MAcpiFlags {
        MAcpiFlags { bits: self.flags & 1 }
    }

    /// The flags of the table.
    pub fn get_flags(&self) -> (f: MAcpiFlags)
        ensures
            f == self.flags(),
    {
        MAcpiFlags::from_bits_truncate(self.flags)
    }

    /// An iterator over the interrupt controller records.
    pub fn get_iter(&self) -> (it: InterruptControllerIter<'_>)
        ensures
            it.table() == *self,
            it.position() == RECORDS_OFFSET,
            it.remaining() == self.records(),
    {
        InterruptControllerIter { madt: self, offset: 8 + SDT_SIZE as usize }
    }
}

/// An iterator over the interrupt controller records of a MADT.
pub struct InterruptControllerIter<'a> {
    madt: &'a Madt,
    offset: usize,
}

impl<'a> InterruptControllerIter<'a> {
    /// The table the iterator walks.
    pub closed spec fn table(&self) -> Madt {
        *self.madt
    }

    /// The offset of the next record.
    pub closed spec fn position(&self) -> nat {
        self.offset as nat
    }

    /// The records the iterator has yet to hand out, up to a record of
    /// length zero.
    pub open spec fn remaining(&self) -> Seq<InterruptController> {
        records_from(self.table().data(), self.table().header().length as nat, self.position())
    }

    /// The offset of the next record.
    pub fn offset(&self) -> (o: usize)
        ensures
            o == self.position(),
    {
        self.offset
    }

    /// Hands out the record at the current offset and moves to the offset
    /// its length byte gives, or returns `None` at the end of the table and
    /// stays there.
    pub fn next(&mut self) -> (r: Option<InterruptController>)
        ensures
            match next_record(old(self).table().data(), old(self).table().header().length as nat, old(self).position()) {
                Some((c, next)) => {
                    &&& r == Some(c)
                    &&& final(self).position() == next
                    &&& final(self).table() == old(self).table()
                },
                None => r is None && *final(self) == *old(self),
            },
            old(self).remaining().len() > 0 ==> {
                &&& r == Some(old(self).remaining()[0])
                &&& final(self).remaining() == old(self).remaining().drop_first()
            },
    {
        proof {
            reveal_with_fuel(records_from, 2);
        }
        let data = &self.madt.data;
        let length = self.madt.header.length as usize;
        let off = self.offset;
        if off == length || off >= data.len() || data.len() - off < 2 {
            return None;
        }
        let ty = data[off];
        let len = data[off + 1] as usize;
        if len > usize::MAX - off {
            return None;
        }
        let controller = if ty == 1 {
            if data.len() - off < 12 {
                return None;
            }
            InterruptController::IOApic(IOApic {
                header: InterruptControllerHeader { structure_type: ty, length: data[off + 1] },
                io_apic_id: data[off + 2],
                reserved: data[off + 3],
                io_apic_address: read_u32(data.as_slice(), off + 4),
                global_system_interrupt_base: read_u32(data.as_slice(), off + 8),
            })
        } else if ty == 2 {
            if data.len() - off < 10 {
                return None;
            }
            InterruptController::InterruptSourceOverride(InterruptSourceOverride {
                header: InterruptControllerHeader { structure_type: ty, length: data[off + 1] },
                bus: data[off + 2],
                source: data[off + 3],
                global_system_interrupt: read_u32(data.as_slice(), off + 4),
                flags: read_u16(data.as_slice(), off + 8),
            })
        } else {
            InterruptController::Another(ty)
        };
        self.offset = off + len;
        proof {
            if self.offset as nat >= self.madt.data@.len() {
                lemma_no_record_past_bytes(self.madt.data@, self.madt.header.length as nat, self.offset as nat);
            }
        }
        Some(controller)
    }
}

} // verus!
