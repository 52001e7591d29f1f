use kernel::memory::paging::active_table::ActivePageTable;
use kernel::memory::paging::entry::{Entry, EntryFlags};
use kernel::memory::paging::inactive_table::InactivePageTable;
use kernel::memory::paging::table::{
    Level1, Level2, Level3, Level4, NextTable, PagingError, Table, P4,
};
use kernel::memory::paging::{guard_page, identity_mappings, Page, RemapError};
use kernel::memory::{
    double_fault_stack_top, heap_pages, kernel_bounds, stack_allocator_range, ElfSection, Frame, FrameAllocator,
};

struct Frames {
    next: usize,
    left: usize,
}

impl FrameAllocator for Frames {
    fn allocate_frame(&mut self) -> Option<Frame> {
        if self.left == 0 {
            return None;
        }
        self.left -= 1;
        let f = Frame::containing_address(self.next * 4096);
        self.next += 1;
        Some(f)
    }

    fn deallocate_frame(&mut self, _frame: Frame) {}
}

#[test]
fn frame_containing_and_start_address() {
    let f = Frame::containing_address(0x12345);
    assert_eq!(f.number(), 0x12);
    assert_eq!(f.start_address(), 0x12000);
    assert_eq!(Frame::containing_address(f.start_address()), f);
    assert_eq!(f.clone(), f);
}

#[test]
fn frame_iter_yields_range_in_order() {
    let mut it = Frame::range_inclusive(Frame::containing_address(0x3000), Frame::containing_address(0x5fff));
    let mut seen = Vec::new();
    while let Some(f) = it.next() {
        seen.push(f.number());
    }
    assert_eq!(seen, vec![3, 4, 5]);
    assert!(it.next().is_none());
}

#[test]
fn frame_iter_empty_when_start_after_end() {
    let mut it = Frame::range_inclusive(Frame::containing_address(0x5000), Frame::containing_address(0x3000));
    assert!(it.next().is_none());
}

#[test]
fn page_indices() {
    let address: usize = 0o177777_123_456_701_234_5670;
    let p = Page::containing_address(address);
    assert_eq!(p.p4_index(), 0o123);
    assert_eq!(p.p3_index(), 0o456);
    assert_eq!(p.p2_index(), 0o701);
    assert_eq!(p.p1_index(), 0o234);
    assert_eq!(p.start_address(), address & !0xfff);
    let low = Page::containing_address(0x0000_7fff_ffff_f000);
    assert_eq!(low.p4_index(), 255);
    assert_eq!(low.p1_index(), 511);
}

#[test]
fn page_iter_yields_range_in_order() {
    let mut it = Page::range_inclusive(Page::from_number(7), Page::from_number(9));
    let mut seen = Vec::new();
    while let Some(p) = it.next() {
        seen.push(p.number());
    }
    assert_eq!(seen, vec![7, 8, 9]);
}

#[test]
fn heap_and_stack_layout() {
    let (start, end) = heap_pages();
    assert_eq!(start.number(), 0x40000);
    assert_eq!(end.number(), 0x40000 + 24);
    let mut stacks = stack_allocator_range(end);
    assert_eq!(stacks.next().unwrap().number(), 0x40000 + 25);
    let mut count = 1;
    let mut last = 0;
    while let Some(p) = stacks.next() {
        count += 1;
        last = p.number();
    }
    assert_eq!(count, 101);
    assert_eq!(last, 0x40000 + 125);
}

#[test]
fn kernel_bounds_of_allocated_sections() {
    let sections = [
        ElfSection { addr: 0x10_0000, size: 0x2000, flags: 0x6 },
        ElfSection { addr: 0x0, size: 0x9999, flags: 0x0 },
        ElfSection { addr: 0x20_0000, size: 0x1000, flags: 0x3 },
        ElfSection { addr: 0x8_0000, size: 0x10, flags: 0x2 },
    ];
    assert_eq!(kernel_bounds(&sections), Some((0x8_0000, 0x20_1000)));
    assert_eq!(kernel_bounds(&[ElfSection { addr: 5, size: 5, flags: 1 }]), None);
    assert_eq!(kernel_bounds(&[]), None);
}

#[test]
fn entry_flags_and_frames() {
    let flags = EntryFlags::PRESENT().union(EntryFlags::WRITABLE());
    assert_eq!(flags.bits(), 3);
    assert!(flags.contains(EntryFlags::PRESENT()));
    assert!(!flags.contains(EntryFlags::HUGE_PAGE()));
    let mut e = Entry::from_value(0);
    assert!(e.is_unused());
    assert!(e.pointed_frame().is_none());
    e.set(Frame::containing_address(0x1234_5000), flags.union(EntryFlags::NO_EXECUTE()));
    assert_eq!(e.value(), 0x8000_0000_1234_5003);
    assert_eq!(e.pointed_frame().unwrap().number(), 0x12345);
    assert_eq!(e.flags().bits(), 0x8000_0000_0000_0003);
    e.set_unused();
    assert_eq!(e.value(), 0);
    assert_eq!(EntryFlags::from_bits_truncate(0xffff_ffff_ffff_ffff).bits(), 0x8000_0000_0000_01ff);
}

#[test]
fn entry_flags_from_elf_sections() {
    assert_eq!(EntryFlags::from_elf_section_flags(0x2).bits(), 0x8000_0000_0000_0001);
    assert_eq!(EntryFlags::from_elf_section_flags(0x3).bits(), 0x8000_0000_0000_0003);
    assert_eq!(EntryFlags::from_elf_section_flags(0x6).bits(), 0x1);
    assert_eq!(EntryFlags::from_elf_section_flags(0x0).bits(), 0x8000_0000_0000_0000);
}

#[test]
fn table_clear_makes_entries_unused() {
    let mut t: Table<Level1> = Table::new();
    t.set_entry(3, Entry::from_value(0x5003));
    assert_eq!(t.index(3).value(), 0x5003);
    t.clear();
    for i in 0..512 {
        assert!(t.index(i).is_unused());
    }
}

#[test]
fn next_table_address_follows_recursive_mapping() {
    let mut t: Table<Level4> = Table::new();
    assert_eq!(t.next_table_address(P4, 5), None);
    t.set_entry(5, Entry::from_value(0x7003));
    assert_eq!(t.next_table_address(P4, 5), Some(0xffff_ffff_ffe0_5000));
    t.set_entry(6, Entry::from_value(0x7083));
    assert_eq!(t.next_table_address(P4, 6), None);
    let t3: Table<Level3> = Table::new();
    let _ = t3;
    let mut t2: Table<Level2> = Table::new();
    t2.set_entry(1, Entry::from_value(0x9001));
    assert_eq!(t2.next_table_address(0xffff_ffff_c000_0000, 1), Some(0xffff_ff80_0000_1000));
}

#[test]
fn next_table_create_allocates_once() {
    let mut t: Table<Level4> = Table::new();
    let mut frames = Frames { next: 0x100, left: 1 };
    match t.next_table_create(P4, 2, &mut frames).unwrap() {
        NextTable::Created { address, frame } => {
            assert_eq!(address, 0xffff_ffff_ffe0_2000);
            assert_eq!(frame.number(), 0x100);
        }
        NextTable::Existing(_) => panic!("expected a new table"),
    }
    assert_eq!(t.index(2).value(), 0x10_0003);
    match t.next_table_create(P4, 2, &mut frames).unwrap() {
        NextTable::Existing(address) => assert_eq!(address, 0xffff_ffff_ffe0_2000),
        NextTable::Created { .. } => panic!("expected the existing table"),
    }
    assert_eq!(t.next_table_create(P4, 3, &mut frames).err(), Some(PagingError::OutOfFrames));
    assert!(t.index(3).is_unused());
}

#[test]
fn inactive_table_maps_itself() {
    let mut t: Table<Level4> = Table::new();
    t.set_entry(0, Entry::from_value(0x1234_5003));
    let frame = Frame::containing_address(0x8000);
    let inactive = InactivePageTable::new(frame, &mut t);
    assert_eq!(inactive.get_frame().number(), 8);
    assert!(t.index(0).is_unused());
    assert_eq!(t.index(511).value(), 0x8003);
    assert_eq!(t.index(511).pointed_frame().unwrap().number(), 8);
}

#[test]
fn identity_mappings_of_kernel() {
    let sections = [
        ElfSection { addr: 0x10_0000, size: 0x2800, flags: 0x6 },
        ElfSection { addr: 0x0, size: 0x10, flags: 0x0 },
        ElfSection { addr: 0x20_0000, size: 0x1000, flags: 0x3 },
    ];
    let maps = identity_mappings(&sections, 0x30_0100, 0x30_2100).unwrap();
    let views: Vec<(usize, usize, u64)> =
        maps.iter().map(|m| (m.start.number(), m.end.number(), m.flags.bits())).collect();
    assert_eq!(
        views,
        vec![
            (0x100, 0x102, 0x1),
            (0x200, 0x200, 0x8000_0000_0000_0003),
            (0xb8, 0xb8, 0x2),
            (0x300, 0x302, 0x1),
        ]
    );
    let unaligned = [ElfSection { addr: 0x10_0010, size: 0x10, flags: 0x2 }];
    assert_eq!(identity_mappings(&unaligned, 0x1000, 0x2000).err(), Some(RemapError::UnalignedSection));
}

#[test]
fn guard_page_of_old_table() {
    let frame = Frame::containing_address(0x7_f000);
    assert_eq!(guard_page(&frame).number(), 0x7f);
}

#[test]
fn index_mut_changes_one_entry() {
    let mut t: Table<Level1> = Table::new();
    t.index_mut(7).set(Frame::containing_address(0x9000), EntryFlags::PRESENT());
    assert_eq!(t.index(7).value(), 0x9001);
    assert!(t.index(6).is_unused());
}

#[test]
fn active_table_recursive_entry() {
    let active = ActivePageTable::new();
    assert_eq!(active.p4_address(), 0xffff_ffff_ffff_f000);
    let mut p4: Table<Level4> = Table::new();
    p4.set_entry(1, Entry::from_value(0x5003));
    ActivePageTable::set_recursive_entry(&mut p4, Frame::containing_address(0x42_0000));
    assert_eq!(p4.index(511).value(), 0x42_0003);
    assert_eq!(p4.index(1).value(), 0x5003);
}

#[test]
fn frame_bounds_and_round_trip() {
    for address in [0usize, 1, 4095, 4096, 0x1234_5678, usize::MAX] {
        let f = Frame::containing_address(address);
        assert!(f.start_address() <= address);
        assert!(address - f.start_address() < 4096);
        assert_eq!(Frame::containing_address(f.start_address()), f);
    }
}

#[test]
fn address_decomposition_gives_back_low_bits() {
    for address in [0usize, 0x1234_5678_9abc, 0xffff_8123_4567_89ab, 0x0000_7fff_ffff_ffff] {
        let p = Page::containing_address(address);
        let rebuilt = (p.p4_index() << 39) | (p.p3_index() << 30) | (p.p2_index() << 21) | (p.p1_index() << 12) | (address & 0xfff);
        assert_eq!(rebuilt, address & 0xffff_ffff_ffff);
    }
}

#[test]
fn next_table_create_refuses_frame_beyond_entry_range() {
    let mut t: Table<Level2> = Table::new();
    let mut frames = Frames { next: 0x100_0000_0000, left: 1 };
    assert_eq!(t.next_table_create(0, 9, &mut frames).err(), Some(PagingError::FrameOutOfRange));
    assert!(t.index(9).is_unused());
}

#[test]
fn install_table_frame_outcomes() {
    let mut t: Table<Level3> = Table::new();
    assert_eq!(t.install_table_frame(0, 4, None).err(), Some(PagingError::OutOfFrames));
    assert!(t.index(4).is_unused());
    let far = Frame::containing_address(0x100_0000_0000 * 4096);
    assert_eq!(t.install_table_frame(0, 4, Some(far)).err(), Some(PagingError::FrameOutOfRange));
    assert!(t.index(4).is_unused());
    match t.install_table_frame(0xffff_ffff_ffe0_0000, 4, Some(Frame::containing_address(0x5000))).unwrap() {
        NextTable::Created { address, frame } => {
            assert_eq!(address, 0xffff_ffff_c000_4000);
            assert_eq!(frame.number(), 5);
        }
        NextTable::Existing(_) => panic!("expected a new table"),
    }
    assert_eq!(t.index(4).value(), 0x5003);
    // The last frame an entry can address is accepted.
    let last = Frame::containing_address((0x100_0000_0000 - 1) * 4096);
    assert!(matches!(t.install_table_frame(0, 5, Some(last)), Ok(NextTable::Created { .. })));
    assert_eq!(t.index(5).value(), 0x000f_ffff_ffff_f003);
}

#[test]
fn next_table_create_leaves_allocator_alone_when_table_exists() {
    let mut t: Table<Level4> = Table::new();
    t.set_entry(1, Entry::from_value(0x7003));
    let mut frames = Frames { next: 0x100, left: 3 };
    assert!(matches!(t.next_table_create(P4, 1, &mut frames), Ok(NextTable::Existing(_))));
    assert_eq!(frames.left, 3);
    assert_eq!(frames.next, 0x100);
}

#[test]
fn double_fault_stack_after_guard_page() {
    let mut pages = Page::range_inclusive(Page::from_number(10), Page::from_number(20));
    assert_eq!(double_fault_stack_top(&mut pages), Some(12 * 4096));
    assert_eq!(pages.next().unwrap().number(), 12);
    let mut one = Page::range_inclusive(Page::from_number(10), Page::from_number(10));
    assert_eq!(double_fault_stack_top(&mut one), None);
}
