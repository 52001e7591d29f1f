//! Virtual pages and four-level x86_64 paging.
pub mod entry;
pub mod table;
pub mod inactive_table;
pub mod active_table;

use vstd::prelude::*;
use crate::memory::{numbers_from_to, ElfSection, Frame, PAGE_SIZE, is_allocated, max_frame_number};
use crate::memory::paging::entry::{EntryFlags, elf_entry_flags};

verus! {

/// Number of entries in a page table.
pub const ENTRY_COUNT: usize = 512;

/// A physical address.
pub type PhysicalAddress = usize;

/// A virtual address.
pub type VirtualAddress = usize;

/// Whether `address` is canonical: bits 47..63 are all equal.
pub open spec fn is_canonical(address: usize) -> bool {
    address as int <= 0x0000_7fff_ffff_ffff || address as int >= 0xffff_8000_0000_0000
}

/// The index into the table of the given level (4 down to 1) that a page
/// number selects: nine bits of the number per level.
pub open spec fn table_index(number: nat, level: nat) -> nat {
    if level == 4 {
        (number / 0x800_0000) % 512
    } else if level == 3 {
        (number / 0x4_0000) % 512
    } else if level == 2 {
        (number / 0x200) % 512
    } else {
        number % 512
    }
}

/// The four table indices of the page of a canonical address, followed by
/// the offset within the page, give back the low 48 bits of the address:
/// index 4 in bits 39..47, index 3 in bits 30..38, index 2 in bits 21..29,
/// index 1 in bits 12..20, the offset in bits 0..11.
pub proof fn lemma_address_decomposition(address: usize)
    requires
        is_canonical(address),
    ensures
        ({
            let n = address as nat / PAGE_SIZE as nat;
            table_index(n, 4) * 0x80_0000_0000 + table_index(n, 3) * 0x4000_0000 + table_index(n, 2)
                * 0x20_0000 + table_index(n, 1) * 0x1000 + address as nat % PAGE_SIZE as nat
                == address as nat % 0x1_0000_0000_0000
        }),
{
    let x = address as u64;
    assert(((x / 4096) / 0x800_0000) % 512 * 0x80_0000_0000 + ((x / 4096) / 0x4_0000) % 512 * 0x4000_0000
        + ((x / 4096) / 0x200) % 512 * 0x20_0000 + (x / 4096) % 512 * 0x1000 + x % 4096
        == x % 0x1_0000_0000_0000) by (bit_vector);
}

/// A virtual page of `PAGE_SIZE` bytes, identified by its number.
#[derive(Debug, Clone, Copy, PartialEq, Eq, Structural, PartialOrd, Ord)]
pub struct Page {
    number: usize,
}

impl View for Page {
    type V = nat;

    /// The page number.
    closed spec fn view(&self) -> nat {
        self.number as nat
    }
}

impl Page {
    /// The page that contains the canonical virtual address `address`.
    pub fn containing_address(address: VirtualAddress) -> (p: Page)
        requires
            is_canonical(address),
        ensures
            p@ == address as nat / PAGE_SIZE as nat,
    {
        Page { number: address / PAGE_SIZE }
    }

    /// The page with the given number.
    pub fn from_number(number: usize) -> (p: Page)
        ensures
            p@ == number,
    {
        Page { number }
    }

    /// The page number.
    pub fn number(&self) -> (n: usize)
        ensures
            n == self@,
    {
        self.number
    }

    /// The virtual address of the first byte of the page.
    pub fn start_address(&self) -> (a: usize)
        requires
            self@ * PAGE_SIZE as nat <= usize::MAX,
        ensures
            a == self@ * PAGE_SIZE as nat,
    {
        self.number * PAGE_SIZE
    }

    /// The index of the page's entry in the level 4 table.
    pub fn p4_index(&self) -> (i: usize)
        ensures
            i == table_index(self@, 4),
            i < ENTRY_COUNT,
    {
        let n = self.number;
        assert((n >> 27) & 0o777 == (n / 0x800_0000) % 512) by (bit_vector);
        (self.number >> 27) & 0o777
    }

    /// The index of the page's entry in the level 3 table.
    pub fn p3_index(&self) -> (i: usize)
        ensures
            i == table_index(self@, 3),
            i < ENTRY_COUNT,
    {
        let n = self.number;
        assert((n >> 18) & 0o777 == (n / 0x4_0000) % 512) by (bit_vector);
        (self.number >> 18) & 0o777
    }

    /// The index of the page's entry in the level 2 table.
    pub fn p2_index(&self) -> (i: usize)
        ensures
            i == table_index(self@, 2),
            i < ENTRY_COUNT,
    {
        let n = self.number;
        assert((n >> 9) & 0o777 == (n / 0x200) % 512) by (bit_vector);
        (self.number >> 9) & 0o777
    }

    /// The index of the page's entry in the level 1 table.
    pub fn p1_index(&self) -> (i: usize)
        ensures
            i == table_index(self@, 1),
            i < ENTRY_COUNT,
    {
        let n = self.number;
        assert((n >> 0) & 0o777 == n % 512) by (bit_vector);
        (self.number >> 0) & 0o777
    }

    /// An inclusive iterator over the pages from `start` to `end`.
    pub fn range_inclusive(start: Page, end: Page) -> (it: PageIter)
        ensures
            it.start() == start@,
            it.end() == end@,
    {
        PageIter { start, end }
    }
}

/// An iterator over an inclusive range of pages.
pub struct PageIter {
    start: Page,
    end: Page,
}

impl PageIter {
    /// The number of the next page the iterator would hand out.
    pub closed spec fn start(&self) -> nat {
        self.start@
    }

    /// The number of the last page of the range.
    pub closed spec fn end(&self) -> nat {
        self.end@
    }

    /// The numbers of the pages the iterator has yet to hand out, in order.
    pub open spec fn remaining(&self) -> Seq<nat> {
        numbers_from_to(self.start(), self.end())
    }

    /// Hands out the next page of the range, or `None` once it is exhausted.
    pub fn next(&mut self) -> (r: Option<Page>)
        requires
            old(self).start() <= old(self).end() ==> old(self).start() < usize::MAX,
        ensures
            final(self).end() == old(self).end(),
            old(self).remaining().len() == 0 <==> r is None,
            r matches Some(x) ==> x@ == old(self).remaining()[0]
                && final(self).remaining() == old(self).remaining().drop_first(),
            old(self).start() <= old(self).end() ==> {
                &&& r matches Some(p) && p@ == old(self).start()
                &&& final(self).start() == old(self).start() + 1
            },
            old(self).start() > old(self).end() ==> {
                &&& r is None
                &&& final(self).start() == old(self).start()
            },
    {
        if self.start.number <= self.end.number {
            let page = self.start;
            self.start.number = self.start.number + 1;
            proof {
                assert(self.remaining() =~= old(self).remaining().drop_first());
            }
            Some(page)
        } else {
            None
        }
    }
}

/// A range of frames to map to the same addresses, with their flags.
pub struct IdentityMapping {
    pub start: Frame,
    pub end: Frame,
    pub flags: EntryFlags,
}

/// A mapping as (first frame, last frame, flag bits).
pub open spec fn mapping_view(m: IdentityMapping) -> (nat, nat, u64) {
    (m.start@, m.end@, m.flags@)
}

/// Why the kernel could not be remapped.
#[derive(Debug, Clone, Copy, PartialEq, Eq, Structural)]
pub enum RemapError {
    /// An allocated section does not start on a page boundary.
    UnalignedSection,
}

/// Physical address of the VGA text buffer.
pub const VGA_BUFFER_ADDRESS: usize = 0xb8000;

/// The frames of the allocated sections of `s`, in order, with the flags
/// their section flags give.
pub open spec fn section_mappings(s: Seq<ElfSection>) -> Seq<(nat, nat, u64)>
    decreases s.len(),
{
    if s.len() == 0 {
        Seq::empty()
    } else {
        let rest = section_mappings(s.drop_last());
        let last = s.last();
        if is_allocated(last) {
            rest.push((
                last.addr as nat / PAGE_SIZE as nat,
                (last.addr + last.size - 1) as nat / PAGE_SIZE as nat,
                elf_entry_flags(last.flags),
            ))
        } else {
            rest
        }
    }
}

/// Whether every allocated section of `s` starts on a page boundary.
pub open spec fn sections_aligned(s: Seq<ElfSection>) -> bool {
    forall|i: int| 0 <= i < s.len() && is_allocated(#[trigger] s[i]) ==> s[i].addr % PAGE_SIZE == 0
}

/// What the new kernel page table maps to the same addresses: the frames
/// of each allocated kernel section with the flags of the section, then
/// the VGA text buffer writable, then the frames of the boot information
/// (from `boot_start` to just before `boot_end`) present. Fails if an
/// allocated section does not start on a page boundary.
pub fn identity_mappings(sections: &[ElfSection], boot_start: usize, boot_end: usize) -> (r: Result<
    Vec<IdentityMapping>,
    RemapError,
>)
    requires
        boot_end >= 1,
        forall|i: int| 0 <= i < sections@.len() && is_allocated(#[trigger] sections@[i])
            ==> 1 <= sections@[i].addr + sections@[i].size <= usize::MAX,
    ensures
        r is Ok <==> sections_aligned(sections@),
        r matches Ok(v) ==> v@.map_values(|m: IdentityMapping| mapping_view(m)) == section_mappings(sections@)
            + seq![
            (VGA_BUFFER_ADDRESS as nat / PAGE_SIZE as nat, VGA_BUFFER_ADDRESS as nat / PAGE_SIZE as nat, 2u64),
            (boot_start as nat / PAGE_SIZE as nat, (boot_end - 1) as nat / PAGE_SIZE as nat, 1u64),
        ],
{
    let mut mappings: Vec<IdentityMapping> = Vec::new();
    let mut i: usize = 0;
    while i < sections.len()
        invariant
            i <= sections@.len(),
            forall|j: int| 0 <= j < sections@.len() && is_allocated(#[trigger] sections@[j])
                ==> 1 <= sections@[j].addr + sections@[j].size <= usize::MAX,
            sections_aligned(sections@.subrange(0, i as int)),
            mappings@.map_values(|m: IdentityMapping| mapping_view(m)) == section_mappings(sections@.subrange(0, i as int)),
        decreases sections@.len() - i,
    {
        let section = sections[i];
        proof {
            let s = sections@.subrange(0, i as int + 1);
            assert(s.drop_last() =~= sections@.subrange(0, i as int));
            assert(s.last() == section);
        }
        if section.is_allocated() {
            if section.addr % PAGE_SIZE != 0 {
                proof {
                    assert(sections@[i as int] == section);
                }
                return Err(RemapError::UnalignedSection);
            }
            let flags = EntryFlags::from_elf_section_flags(section.flags);
            let start = Frame::containing_address(section.addr);
            let end = Frame::containing_address(section.addr + section.size - 1);
            let ghost before = mappings@;
            mappings.push(IdentityMapping { start, end, flags });
            proof {
                assert(mappings@.map_values(|m: IdentityMapping| mapping_view(m))
                    =~= before.map_values(|m: IdentityMapping| mapping_view(m)).push(mapping_view(mappings@.last())));
            }
        }
        proof {
            let s = sections@.subrange(0, i as int + 1);
            assert forall|j: int| 0 <= j < s.len() && is_allocated(#[trigger] s[j]) implies s[j].addr % PAGE_SIZE == 0 by {
                if j < i {
                    assert(s[j] == sections@.subrange(0, i as int)[j]);
                }
            }
        }
        i = i + 1;
    }
    assert(sections@.subrange(0, sections@.len() as int) =~= sections@);
    let ghost before = mappings@;
    mappings.push(IdentityMapping {
        start: Frame::containing_address(VGA_BUFFER_ADDRESS),
        end: Frame::containing_address(VGA_BUFFER_ADDRESS),
        flags: EntryFlags::WRITABLE(),
    });
    mappings.push(IdentityMapping {
        start: Frame::containing_address(boot_start),
        end: Frame::containing_address(boot_end - 1),
        flags: EntryFlags::PRESENT(),
    });
    proof {
        assert(mappings@.map_values(|m: IdentityMapping| mapping_view(m)) =~= before.map_values(
            |m: IdentityMapping| mapping_view(m),
        ) + seq![mapping_view(mappings@[mappings@.len() - 2]), mapping_view(mappings@.last())]);
    }
    Ok(mappings)
}

/// The page of the old level 4 table, left unmapped as a guard page below
/// the kernel stack: the page at the address of its frame.
pub fn guard_page(old_p4_frame: &Frame) -> (p: Page)
    requires
        old_p4_frame@ <= max_frame_number(),
        old_p4_frame@ * PAGE_SIZE as nat <= 0x0000_7fff_ffff_ffff,
    ensures
        p@ == old_p4_frame@,
{
    let a = old_p4_frame.start_address();
    Page::containing_address(a)
}

} // verus!
