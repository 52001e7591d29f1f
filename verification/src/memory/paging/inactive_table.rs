//! A level 4 table that is not the one the CPU is using.
use vstd::prelude::*;
use crate::memory::Frame;
use crate::memory::paging::ENTRY_COUNT;
use crate::memory::paging::entry::{Entry, EntryFlags, FRAME_LIMIT, entry_value};
use crate::memory::paging::table::{Level4, Table};

verus! {

/// A level 4 table, held by the frame it lives in.
pub struct InactivePageTable {
    /// The frame of the level 4 table.
    pub p4_frame: Frame,
}

impl InactivePageTable {
    /// Prepares `frame` as a fresh level 4 table: `table` is its content,
    /// mapped somewhere by the caller. Every entry is made unused except
    /// entry 511, which points back to `frame` itself, present and
    /// writable, so that the table maps itself recursively.
    pub fn new(frame: Frame, table: &mut Table<Level4>) -> (t: InactivePageTable)
        requires
            frame@ < FRAME_LIMIT,
        ensures
            t.p4_frame == frame,
            final(table).entries().len() == ENTRY_COUNT,
            forall|i: int| 0 <= i < 511 ==> #[trigger] final(table).entries()[i]@ == 0,
            final(table).entries()[511]@ == entry_value(frame@, 3),
    {
        table.clear();
        let mut entry = Entry::from_value(0);
        entry.set(frame.clone(), EntryFlags::PRESENT().union(EntryFlags::WRITABLE()));
        table.set_entry(511, entry);
        assert(1u64 | 2u64 == 3u64) by (bit_vector);
        InactivePageTable { p4_frame: frame }
    }

    /// The frame of the level 4 table.
    pub fn get_frame(&self) -> (f: Frame)
        ensures
            f == self.p4_frame,
    {
        self.p4_frame.clone()
    }
}

} // verus!
