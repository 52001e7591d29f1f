//! The level 4 table the CPU is using, reached through its recursive entry.
use vstd::prelude::*;
use crate::memory::Frame;
use crate::memory::paging::entry::{Entry, EntryFlags, FRAME_LIMIT, entry_value};
use crate::memory::paging::table::{Level4, Table, P4};

verus! {

/// Index of the recursive entry of a level 4 table.
pub const RECURSIVE_INDEX: usize = 511;

/// The active level 4 table, at its recursive address `P4`.
pub struct ActivePageTable {
    p4: u64,
}

impl ActivePageTable {
    /// The address the active level 4 table is at.
    pub closed spec fn address(&self) -> u64 {
        self.p4
    }

    /// The active table, at `P4`.
    pub fn new() -> (t: ActivePageTable)
        ensures
            t.address() == P4,
    {
        ActivePageTable { p4: P4 }
    }

    /// The address the active level 4 table is at.
    pub fn p4_address(&self) -> (a: u64)
        ensures
            a == self.address(),
    {
        self.p4
    }

    /// Points the recursive entry of `p4` at `frame`, present and
    /// writable; the other entries stay. Pointing it at an inactive table
    /// makes that table's structures reachable through the recursive
    /// addresses; pointing it back at the table's own frame restores it.
    pub fn set_recursive_entry(p4: &mut Table<Level4>, frame: Frame)
        requires
            frame@ < FRAME_LIMIT,
            old(p4).entries().len() == 512,
        ensures
            final(p4).entries() == old(p4).entries().update(
                RECURSIVE_INDEX as int,
                Entry::spec_from_value(entry_value(frame@, 3)),
            ),
    {
        let mut entry = Entry::from_value(0);
        entry.set(frame, EntryFlags::PRESENT().union(EntryFlags::WRITABLE()));
        p4.set_entry(RECURSIVE_INDEX, entry);
        proof {
            assert(1u64 | 2u64 == 3u64) by (bit_vector);
            crate::memory::paging::entry::lemma_entry_view(entry);
        }
    }
}

} // verus!
