//! Page-table entries and their flags.
use vstd::prelude::*;
use crate::memory::{Frame, PAGE_SIZE};

verus! {

/// Bits 12..51 of an entry: the physical address of the frame it points to.
pub const ADDRESS_MASK: u64 = 0x000f_ffff_ffff_f000;

/// Every flag bit that `EntryFlags` names.
pub const ALL_FLAG_BITS: u64 = 0x8000_0000_0000_01ff;

/// Frames numbered below this bound have a start address that fits in the
/// address field of an entry (52-bit physical addresses).
pub const FRAME_LIMIT: u64 = 0x100_0000_0000;

/// A section flag of an ELF section header: the section is writable.
pub const ELF_SECTION_WRITABLE: u64 = 0x1;

/// A section flag of an ELF section header: the section occupies memory.
pub const ELF_SECTION_ALLOCATED: u64 = 0x2;

/// A section flag of an ELF section header: the section holds code.
pub const ELF_SECTION_EXECUTABLE: u64 = 0x4;

/// The entry flags of a section with ELF section flags `section_flags`:
/// present if it occupies memory, writable if it is writable, and not
/// executable unless it holds code.
pub open spec fn elf_entry_flags(section_flags: u64) -> u64 {
    (if section_flags & ELF_SECTION_ALLOCATED != 0 { 1u64 } else { 0u64 })
        | (if section_flags & ELF_SECTION_WRITABLE != 0 { 2u64 } else { 0u64 })
        | (if section_flags & ELF_SECTION_EXECUTABLE == 0 { 0x8000_0000_0000_0000u64 } else { 0u64 })
}

/// The flag bits of a page-table entry.
#[derive(Debug, Clone, Copy, PartialEq, Eq, Structural)]
pub struct EntryFlags {
    bits: u64,
}

impl View for EntryFlags {
    type V = u64;

    /// The raw bits.
    closed spec fn view(&self) -> u64 {
        self.bits
    }
}

impl EntryFlags {
    /// The entry is present: it maps a frame or points to a table.
    #[allow(non_snake_case)]
    pub fn PRESENT() -> (f: EntryFlags)
        ensures
            f@ == 0x1u64,
    {
        EntryFlags { bits: 0x1 }
    }

    /// Writes are allowed.
    #[allow(non_snake_case)]
    pub fn WRITABLE() -> (f: EntryFlags)
        ensures
            f@ == 0x2u64,
    {
        EntryFlags { bits: 0x2 }
    }

    /// User mode may access the page.
    #[allow(non_snake_case)]
    pub fn USER_ACCESSIBLE() -> (f: EntryFlags)
        ensures
            f@ == 0x4u64,
    {
        EntryFlags { bits: 0x4 }
    }

    /// Writes go straight to memory.
    #[allow(non_snake_case)]
    pub fn WRITE_THROUGH() -> (f: EntryFlags)
        ensures
            f@ == 0x8u64,
    {
        EntryFlags { bits: 0x8 }
    }

    /// The page is not cached.
    #[allow(non_snake_case)]
    pub fn NO_CACHE() -> (f: EntryFlags)
        ensures
            f@ == 0x10u64,
    {
        EntryFlags { bits: 0x10 }
    }

    /// The CPU has used the entry.
    #[allow(non_snake_case)]
    pub fn ACCESSED() -> (f: EntryFlags)
        ensures
            f@ == 0x20u64,
    {
        EntryFlags { bits: 0x20 }
    }

    /// The CPU has written to the page.
    #[allow(non_snake_case)]
    pub fn DIRTY() -> (f: EntryFlags)
        ensures
            f@ == 0x40u64,
    {
        EntryFlags { bits: 0x40 }
    }

    /// The entry maps a huge page instead of pointing to a table.
    #[allow(non_snake_case)]
    pub fn HUGE_PAGE() -> (f: EntryFlags)
        ensures
            f@ == 0x80u64,
    {
        EntryFlags { bits: 0x80 }
    }

    /// The mapping stays in the TLB across address-space switches.
    #[allow(non_snake_case)]
    pub fn GLOBAL() -> (f: EntryFlags)
        ensures
            f@ == 0x100u64,
    {
        EntryFlags { bits: 0x100 }
    }

    /// Instructions may not be fetched from the page.
    #[allow(non_snake_case)]
    pub fn NO_EXECUTE() -> (f: EntryFlags)
        ensures
            f@ == 0x8000_0000_0000_0000u64,
    {
        EntryFlags { bits: 0x8000_0000_0000_0000 }
    }

    /// The raw bits.
    pub fn bits(&self) -> (b: u64)
        ensures
            b == self@,
    {
        self.bits
    }

    /// The flags of `bits` that this type names; other bits are dropped.
    pub fn from_bits_truncate(bits: u64) -> (f: EntryFlags)
        ensures
            f@ == bits & ALL_FLAG_BITS,
    {
        EntryFlags { bits: bits & ALL_FLAG_BITS }
    }

    /// No flag set.
    pub fn empty() -> (f: EntryFlags)
        ensures
            f@ == 0,
    {
        EntryFlags { bits: 0 }
    }

    /// Whether every flag of `other` is set in `self`.
    pub open spec fn spec_contains(&self, other: EntryFlags) -> bool {
        self@ & other@ == other@
    }

    /// Whether every flag of `other` is set in `self`.
    #[verifier::when_used_as_spec(spec_contains)]
    pub fn contains(&self, other: EntryFlags) -> (r: bool)
        ensures
            r == (self@ & other@ == other@),
    {
        self.bits & other.bits == other.bits
    }

    /// The flags set in `self` or in `other`.
    pub fn union(self, other: EntryFlags) -> (f: EntryFlags)
        ensures
            f@ == self@ | other@,
    {
        EntryFlags { bits: self.bits | other.bits }
    }

    /// The flags with which a section of the given ELF section flags is
    /// mapped: present if the section occupies memory, writable if it is
    /// writable, and not executable unless it holds code.
    pub fn from_elf_section_flags(section_flags: u64) -> (f: EntryFlags)
        ensures
            f@ == elf_entry_flags(section_flags),
    {
        let present: u64 = if section_flags & ELF_SECTION_ALLOCATED != 0 { 1 } else { 0 };
        let writable: u64 = if section_flags & ELF_SECTION_WRITABLE != 0 { 2 } else { 0 };
        let no_execute: u64 = if section_flags & ELF_SECTION_EXECUTABLE == 0 { 0x8000_0000_0000_0000 } else { 0 };
        EntryFlags { bits: present | writable | no_execute }
    }
}

/// The value of an entry that points to `frame` with `flags`.
pub open spec fn entry_value(frame: nat, flags: u64) -> u64 {
    ((frame * PAGE_SIZE as nat) as u64) | flags
}

/// An entry pointed to `frame` with `flags` gives back that frame's start
/// address in its address field and exactly those flags in its flag bits,
/// when the flags are ones this type names.
pub proof fn lemma_entry_value_fields(frame: nat, flags: u64)
    requires
        frame < FRAME_LIMIT,
        flags & !ALL_FLAG_BITS == 0,
    ensures
        entry_value(frame, flags) & ADDRESS_MASK == frame * PAGE_SIZE as nat,
        entry_value(frame, flags) & ALL_FLAG_BITS == flags,
{
    let f = frame as u64;
    let a = (frame * PAGE_SIZE as nat) as u64;
    assert(a == f * 4096);
    assert((a | flags) & 0x000f_ffff_ffff_f000u64 == a && (a | flags) & 0x8000_0000_0000_01ffu64 == flags)
        by (bit_vector)
        requires f < 0x100_0000_0000u64, a == f * 4096, flags & !0x8000_0000_0000_01ffu64 == 0;
}

/// An entry of a page table: a frame address and flag bits in one word.
#[derive(Debug, Clone, Copy, PartialEq, Eq, Structural)]
pub struct Entry(u64);

impl View for Entry {
    type V = u64;

    /// The raw value.
    closed spec fn view(&self) -> u64 {
        self.0
    }
}

/// An entry is determined by its value.
pub proof fn lemma_entry_view(e: Entry)
    ensures
        Entry::spec_from_value(e@) == e,
{
}

/// The value of the entry made from a value is that value.
pub proof fn lemma_from_value_view(v: u64)
    ensures
        Entry::spec_from_value(v)@ == v,
{
}

impl Entry {
    /// The raw value.
    pub fn value(&self) -> (v: u64)
        ensures
            v == self@,
    {
        self.0
    }

    /// The entry with the given raw value.
    pub closed spec fn spec_from_value(value: u64) -> Entry {
        Entry(value)
    }

    /// An entry with the given raw value.
    #[verifier::when_used_as_spec(spec_from_value)]
    pub fn from_value(value: u64) -> (e: Entry)
        ensures
            e@ == value,
            e == Entry::spec_from_value(value),
    {
        Entry(value)
    }

    /// Whether the entry is zero: neither maps nor points to anything.
    pub fn is_unused(&self) -> (r: bool)
        ensures
            r == (self@ == 0),
    {
        self.0 == 0
    }

    /// Makes the entry zero.
    pub fn set_unused(&mut self)
        ensures
            final(self)@ == 0,
    {
        self.0 = 0;
    }

    /// The flag bits of the entry.
    pub fn flags(&self) -> (f: EntryFlags)
        ensures
            f@ == self@ & ALL_FLAG_BITS,
    {
        EntryFlags::from_bits_truncate(self.0)
    }

    /// The frame the entry points to, if it is present.
    pub fn pointed_frame(&self) -> (r: Option<Frame>)
        ensures
            match r {
                Some(f) => self@ & 1 == 1 && f@ == (#[verifier::truncate] ((self@ & ADDRESS_MASK) as usize)) as nat / PAGE_SIZE as nat,
                None => self@ & 1 != 1,
            },
    {
        let v = self.0;
        assert(((v & 0x8000_0000_0000_01ffu64) & 1u64 == 1u64) == (v & 1u64 == 1u64)) by (bit_vector);
        if self.flags().contains(EntryFlags::PRESENT()) {
            Some(Frame::containing_address(#[verifier::truncate] ((self.0 & ADDRESS_MASK) as usize)))
        } else {
            None
        }
    }

    /// Points the entry to `frame` with `flags`.
    pub fn set(&mut self, frame: Frame, flags: EntryFlags)
        requires
            frame@ < FRAME_LIMIT,
        ensures
            final(self)@ == entry_value(frame@, flags@),
    {
        let address: u64 = (frame.number() as u64) * (PAGE_SIZE as u64);
        self.0 = address | flags.bits();
    }
}

} // verus!
