//! Page tables of the four paging levels.
use vstd::prelude::*;
use core::marker::PhantomData;
use crate::memory::{Frame, FrameAllocator};
use crate::memory::paging::ENTRY_COUNT;
use crate::memory::paging::entry::{Entry, EntryFlags, FRAME_LIMIT, entry_value};

verus! {

/// A paging level.
pub trait TableLevel {}

/// A paging level whose entries point to tables of the next level.
pub trait HierarchicalLevel: TableLevel {
    /// The level of the tables that entries of this level point to.
    type NextLevel: TableLevel;
}

/// The top paging level (PML4).
pub struct Level4;

/// The page-directory-pointer level.
pub struct Level3;

/// The page-directory level.
pub struct Level2;

/// The bottom level, whose entries map 4 KiB frames.
pub struct Level1;

impl TableLevel for Level4 {}

impl TableLevel for Level3 {}

impl TableLevel for Level2 {}

impl TableLevel for Level1 {}

impl HierarchicalLevel for Level4 {
    type NextLevel = Level3;
}

impl HierarchicalLevel for Level3 {
    type NextLevel = Level2;
}

impl HierarchicalLevel for Level2 {
    type NextLevel = Level1;
}

/// Virtual address of the level 4 table through its recursive entry 511:
/// sign extension, then index 511 at every level, then offset 0.
pub const P4: u64 = 0o177777_777_777_777_777_0000;

/// A page table of level `L`: 512 entries.
pub struct Table<L: TableLevel> {
    entries: [Entry; 512],
    level: PhantomData<L>,
}

/// Whether the entry points to a table of the next level: it is present
/// and does not map a huge page.
pub open spec fn points_to_table(e: Entry) -> bool {
    e@ & 1 == 1 && e@ & 0x80 == 0
}

/// An entry points to a next-level table exactly when its present bit
/// (bit 0) is set and its huge page bit (bit 7) is clear, whatever its
/// other bits: accessed, dirty, writable and the rest, which the CPU and
/// the mapping code set as they go, change nothing.
pub proof fn lemma_points_to_table_bits(e: Entry, other: Entry)
    ensures
        points_to_table(e) <==> (e@ % 2 == 1 && (e@ / 0x80) % 2 == 0),
        (e@ & 0x81) == (other@ & 0x81) ==> (points_to_table(e) <==> points_to_table(other)),
{
    let v = e@;
    let w = other@;
    assert((v & 1 == 1) <==> (v % 2 == 1)) by (bit_vector);
    assert((v & 0x80 == 0) <==> ((v / 0x80) % 2 == 0)) by (bit_vector);
    assert((v & 0x81) == (w & 0x81) ==> ((v & 1 == 1) <==> (w & 1 == 1)) && ((v & 0x80 == 0) <==> (w & 0x80 == 0)))
        by (bit_vector);
}

/// The virtual address, under the recursive mapping, of the table that
/// entry `index` of the table at `table_address` points to.
pub open spec fn next_table_address_of(table_address: u64, index: u64) -> u64 {
    (table_address << 9u64) | (index << 12u64)
}

impl<L: TableLevel> Table<L> {
    /// The entries of the table.
    pub closed spec fn entries(&self) -> Seq<Entry> {
        self.entries@
    }

    /// A table whose entries are all unused.
    pub fn new() -> (t: Table<L>)
        ensures
            t.entries().len() == ENTRY_COUNT,
            forall|i: int| 0 <= i < ENTRY_COUNT ==> #[trigger] t.entries()[i]@ == 0,
    {
        let entries: [Entry; 512] = [Entry::from_value(0); 512];
        Table { entries, level: PhantomData }
    }

    /// Makes every entry unused.
    pub fn clear(&mut self)
        ensures
            final(self).entries().len() == ENTRY_COUNT,
            forall|i: int| 0 <= i < ENTRY_COUNT ==> #[trigger] final(self).entries()[i]@ == 0,
    {
        let mut i: usize = 0;
        while i < ENTRY_COUNT
            invariant
                0 <= i <= ENTRY_COUNT,
                self.entries@.len() == ENTRY_COUNT,
                forall|j: int| 0 <= j < i ==> #[trigger] self.entries@[j]@ == 0,
            decreases ENTRY_COUNT - i,
        {
            self.entries[i].set_unused();
            i = i + 1;
        }
    }

    /// The entry at `index`.
    pub fn index(&self, index: usize) -> (e: &Entry)
        requires
            index < ENTRY_COUNT,
        ensures
            *e == self.entries()[index as int],
    {
        &self.entries[index]
    }

    /// The entry at `index`, to change in place.
    pub fn index_mut(&mut self, index: usize) -> (e: &mut Entry)
        requires
            index < old(self).entries().len(),
        ensures
            *e == old(self).entries()[index as int],
            final(self).entries() == old(self).entries().update(index as int, *final(e)),
    {
        &mut self.entries[index]
    }

    /// Replaces the entry at `index`.
    pub fn set_entry(&mut self, index: usize, entry: Entry)
        requires
            index < ENTRY_COUNT,
        ensures
            final(self).entries() == old(self).entries().update(index as int, entry),
    {
        self.entries[index] = entry;
    }
}

/// Walking the recursive mapping from `P4` through entries `i`, `j` and `k`
/// reaches the level 3, level 2 and level 1 tables at the addresses that
/// put 511 in the upper index fields and `i`, `j`, `k` below them.
pub proof fn lemma_recursive_table_addresses(i: u64, j: u64, k: u64)
    requires
        i < 512,
        j < 512,
        k < 512,
    ensures
        next_table_address_of(P4, i) == 0xffff_ffff_ffe0_0000u64 | (i << 12u64),
        next_table_address_of(next_table_address_of(P4, i), j)
            == 0xffff_ffff_c000_0000u64 | (i << 21u64) | (j << 12u64),
        next_table_address_of(next_table_address_of(next_table_address_of(P4, i), j), k)
            == 0xffff_ff80_0000_0000u64 | (i << 30u64) | (j << 21u64) | (k << 12u64),
{
    assert(((0xffff_ffff_ffff_f000u64 << 9u64) | (i << 12u64)) == 0xffff_ffff_ffe0_0000u64 | (i << 12u64)) by (bit_vector)
        requires i < 512;
    assert((((0xffff_ffff_ffe0_0000u64 | (i << 12u64)) << 9u64) | (j << 12u64))
        == 0xffff_ffff_c000_0000u64 | (i << 21u64) | (j << 12u64)) by (bit_vector)
        requires i < 512, j < 512;
    assert((((0xffff_ffff_c000_0000u64 | (i << 21u64) | (j << 12u64)) << 9u64) | (k << 12u64))
        == 0xffff_ff80_0000_0000u64 | (i << 30u64) | (j << 21u64) | (k << 12u64)) by (bit_vector)
        requires i < 512, j < 512, k < 512;
}

/// An entry made present and writable for a new table points to a table:
/// after `next_table_create` makes a table, `next_table_address` finds it.
pub proof fn lemma_created_entry_points_to_table(frame: nat)
    requires
        frame < FRAME_LIMIT,
    ensures
        points_to_table(Entry::spec_from_value(entry_value(frame, 3))),
{
    crate::memory::paging::entry::lemma_from_value_view(entry_value(frame, 3));
    let f = frame as u64;
    let a = (frame * 4096) as u64;
    assert(a == f * 4096);
    assert((a | 3u64) & 1 == 1 && (a | 3u64) & 0x80 == 0) by (bit_vector)
        requires f < 0x100_0000_0000u64, a == f * 4096;
}

/// Whether frame `f` can be the target of an entry: its start address
/// fits in the 52-bit address field.
pub open spec fn frame_fits_entry(f: nat) -> bool {
    f < FRAME_LIMIT
}

/// A frame can be the target of an entry exactly when its start address
/// fits in the entry's 52-bit physical address.
pub proof fn lemma_frame_fits_entry(f: nat)
    ensures
        frame_fits_entry(f) <==> f * 4096 < 0x10_0000_0000_0000,
{
}

/// What `next_table_create` found or made at an entry.
pub enum NextTable {
    /// The entry already pointed to a table, at this virtual address.
    Existing(u64),
    /// A frame was allocated for a new table and the entry now points to it.
    /// The caller clears the new table, which is visible at `address`.
    Created { address: u64, frame: Frame },
}

/// Why a next-level table could not be created.
#[derive(Debug, Clone, Copy, PartialEq, Eq, Structural)]
pub enum PagingError {
    /// The frame allocator had no frame left.
    OutOfFrames,
    /// The allocated frame lies beyond what an entry can address.
    FrameOutOfRange,
}

impl<L: HierarchicalLevel> Table<L> {
    /// The virtual address of the next-level table that entry `index`
    /// points to, when the table itself is at `table_address` under the
    /// recursive mapping; `None` if the entry is not present or maps a huge
    /// page.
    pub fn next_table_address(&self, table_address: u64, index: usize) -> (r: Option<u64>)
        requires
            index < ENTRY_COUNT,
        ensures
            r == (if points_to_table(self.entries()[index as int]) {
                Some(next_table_address_of(table_address, index as u64))
            } else {
                None::<u64>
            }),
    {
        let entry_flags = self.entries[index].flags();
        let v = self.entries[index].value();
        assert(((v & 0x8000_0000_0000_01ffu64) & 1u64 == 1u64) == (v & 1u64 == 1u64)) by (bit_vector);
        assert(((v & 0x8000_0000_0000_01ffu64) & 0x80u64 == 0x80u64) == (v & 0x80u64 != 0u64)) by (bit_vector);
        if entry_flags.contains(EntryFlags::PRESENT()) && !entry_flags.contains(EntryFlags::HUGE_PAGE()) {
            Some((table_address << 9u64) | ((index as u64) << 12u64))
        } else {
            None
        }
    }

    /// Points entry `index` at the frame `allocated` for a new
    /// next-level table, present and writable, and gives the new table's
    /// address under the recursive mapping. Fails with `OutOfFrames` when
    /// there is no frame, and with `FrameOutOfRange` when the frame is
    /// beyond what an entry addresses; the table stays as it was then.
    pub fn install_table_frame(
        &mut self,
        table_address: u64,
        index: usize,
        allocated: Option<Frame>,
    ) -> (r: Result<NextTable, PagingError>)
        requires
            index < ENTRY_COUNT,
        ensures
            match allocated {
                None => r == Err::<NextTable, PagingError>(PagingError::OutOfFrames)
                    && final(self).entries() == old(self).entries(),
                Some(f) => if frame_fits_entry(f@) {
                    &&& r matches Ok(NextTable::Created { address, frame })
                    &&& address == next_table_address_of(table_address, index as u64)
                    &&& frame == f
                    &&& final(self).entries() == old(self).entries().update(
                        index as int,
                        Entry::spec_from_value(entry_value(f@, 3)),
                    )
                } else {
                    r == Err::<NextTable, PagingError>(PagingError::FrameOutOfRange)
                        && final(self).entries() == old(self).entries()
                },
            },
    {
        let frame = match allocated {
            Some(f) => f,
            None => return Err(PagingError::OutOfFrames),
        };
        if (frame.number() as u64) >= FRAME_LIMIT {
            return Err(PagingError::FrameOutOfRange);
        }
        let mut entry = self.entries[index];
        entry.set(frame.clone(), EntryFlags::PRESENT().union(EntryFlags::WRITABLE()));
        self.entries[index] = entry;
        proof {
            assert(1u64 | 2u64 == 3u64) by (bit_vector);
            crate::memory::paging::entry::lemma_entry_view(entry);
        }
        let address = (table_address << 9u64) | ((index as u64) << 12u64);
        Ok(NextTable::Created { address, frame })
    }

    /// Makes sure entry `index` points to a next-level table: if it does,
    /// gives that table's address and leaves the allocator alone;
    /// otherwise takes one frame from `allocator` and proceeds as
    /// `install_table_frame` says for it. The entry must not map a huge
    /// page.
    pub fn next_table_create<A: FrameAllocator>(
        &mut self,
        table_address: u64,
        index: usize,
        allocator: &mut A,
    ) -> (r: Result<NextTable, PagingError>)
        requires
            index < ENTRY_COUNT,
            old(self).entries()[index as int]@ & 0x80 == 0,
        ensures
            points_to_table(old(self).entries()[index as int]) ==> {
                &&& r matches Ok(NextTable::Existing(a)) && a == next_table_address_of(table_address, index as u64)
                &&& final(self).entries() == old(self).entries()
                &&& *final(allocator) == *old(allocator)
            },
            !points_to_table(old(self).entries()[index as int]) ==> match r {
                Ok(NextTable::Created { address, frame }) => {
                    &&& address == next_table_address_of(table_address, index as u64)
                    &&& frame_fits_entry(frame@)
                    &&& final(self).entries() == old(self).entries().update(
                        index as int,
                        Entry::spec_from_value(entry_value(frame@, 3)),
                    )
                },
                Ok(NextTable::Existing(_)) => false,
                Err(_) => final(self).entries() == old(self).entries(),
            },
    {
        match self.next_table_address(table_address, index) {
            Some(address) => Ok(NextTable::Existing(address)),
            None => {
                let allocated = allocator.allocate_frame();
                self.install_table_frame(table_address, index, allocated)
            },
        }
    }
}

} // verus!
