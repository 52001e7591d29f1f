//! Physical memory: frames, frame ranges and the frame allocator interface.
pub mod paging;

use vstd::prelude::*;
use crate::memory::paging::{Page, PageIter};

verus! {

/// Size of a page and of a frame, in bytes.
pub const PAGE_SIZE: usize = 4096;

/// Virtual address of the kernel heap.
pub const HEAP_START: usize = 0o_000_001_000_000_0000;

/// Size of the kernel heap, in bytes (100 KiB).
pub const HEAP_SIZE: usize = 100 * 1024;

/// The largest frame number whose start address fits in a `usize`.
pub open spec fn max_frame_number() -> nat {
    (usize::MAX as nat) / (PAGE_SIZE as nat)
}

/// The numbers from `start` to `end`, both included, in increasing order;
/// empty when `start > end`.
pub open spec fn numbers_from_to(start: nat, end: nat) -> Seq<nat> {
    Seq::new(if start <= end { (end - start + 1) as nat } else { 0 }, |i: int| (start + i) as nat)
}

/// A physical frame of `PAGE_SIZE` bytes, identified by its number.
#[derive(Debug, PartialEq, Eq, Structural)]
pub struct Frame {
    number: usize,
}

impl View for Frame {
    type V = nat;

    /// The frame number.
    closed spec fn view(&self) -> nat {
        self.number as nat
    }
}

impl Frame {
    /// An inclusive iterator over the frames from `start` to `end`.
    pub fn range_inclusive(start: Frame, end: Frame) -> (it: FrameIter)
        ensures
            it.start() == start@,
            it.end() == end@,
    {
        FrameIter { start, end }
    }

    /// The frame that contains the physical address `address`.
    pub fn containing_address(address: usize) -> (f: Frame)
        ensures
            f@ == address as nat / PAGE_SIZE as nat,
            f@ <= max_frame_number(),
    {
        Frame { number: address / PAGE_SIZE }
    }

    /// The physical address of the first byte of the frame.
    pub fn start_address(&self) -> (a: usize)
        requires
            self@ <= max_frame_number(),
        ensures
            a == self@ * PAGE_SIZE as nat,
    {
        proof {
            vstd::arithmetic::div_mod::lemma_fundamental_div_mod(usize::MAX as int, PAGE_SIZE as int);
        }
        self.number * PAGE_SIZE
    }

    /// A copy of the frame.
    pub fn clone(&self) -> (f: Frame)
        ensures
            f == *self,
    {
        Frame { number: self.number }
    }

    /// The frame number.
    pub fn number(&self) -> (n: usize)
        ensures
            n == self@,
    {
        self.number
    }
}

/// The frame that contains an address starts at or below it, and the
/// next frame starts above it; its start address fits in a `usize`.
pub proof fn lemma_containing_frame_bounds(address: usize)
    ensures
        (address as nat / PAGE_SIZE as nat) * PAGE_SIZE as nat <= address,
        address < (address as nat / PAGE_SIZE as nat) * PAGE_SIZE as nat + PAGE_SIZE as nat,
        address as nat / PAGE_SIZE as nat <= max_frame_number(),
{
    vstd::arithmetic::div_mod::lemma_fundamental_div_mod(address as int, PAGE_SIZE as int);
    vstd::arithmetic::div_mod::lemma_div_is_ordered(address as int, usize::MAX as int, PAGE_SIZE as int);
}

/// The frame that contains the start address of frame `n` is frame `n`.
pub proof fn lemma_start_address_round_trip(n: nat)
    requires
        n <= max_frame_number(),
    ensures
        n * PAGE_SIZE as nat <= usize::MAX,
        (n * PAGE_SIZE as nat) / PAGE_SIZE as nat == n,
{
    vstd::arithmetic::div_mod::lemma_fundamental_div_mod(usize::MAX as int, PAGE_SIZE as int);
    vstd::arithmetic::div_mod::lemma_div_multiples_vanish(n as int, PAGE_SIZE as int);
}

/// An iterator over an inclusive range of frames.
pub struct FrameIter {
    start: Frame,
    end: Frame,
}

impl FrameIter {
    /// The number of the next frame the iterator would hand out.
    pub closed spec fn start(&self) -> nat {
        self.start@
    }

    /// The number of the last frame of the range.
    pub closed spec fn end(&self) -> nat {
        self.end@
    }

    /// The numbers of the frames the iterator has yet to hand out, in order.
    pub open spec fn remaining(&self) -> Seq<nat> {
        numbers_from_to(self.start(), self.end())
    }

    /// Hands out the next frame of the range, or `None` once it is exhausted.
    pub fn next(&mut self) -> (r: Option<Frame>)
        requires
            old(self).start() <= old(self).end() ==> old(self).start() < usize::MAX,
        ensures
            final(self).end() == old(self).end(),
            old(self).remaining().len() == 0 <==> r is None,
            r matches Some(x) ==> x@ == old(self).remaining()[0]
                && final(self).remaining() == old(self).remaining().drop_first(),
            old(self).start() <= old(self).end() ==> {
                &&& r matches Some(f) && f@ == old(self).start()
                &&& final(self).start() == old(self).start() + 1
            },
            old(self).start() > old(self).end() ==> {
                &&& r is None
                &&& final(self).start() == old(self).start()
            },
    {
        if self.start.number <= self.end.number {
            let frame = self.start.clone();
            self.start.number = self.start.number + 1;
            proof {
                assert(self.remaining() =~= old(self).remaining().drop_first());
            }
            Some(frame)
        } else {
            None
        }
    }
}

/// A source of free physical frames.
pub trait FrameAllocator {
    /// Takes a free frame, or returns `None` when none is left.
    fn allocate_frame(&mut self) -> Option<Frame>;

    /// Gives a frame back.
    fn deallocate_frame(&mut self, frame: Frame);
}

/// A section header of the kernel's ELF image, as the boot loader hands it
/// over.
#[derive(Debug, Clone, Copy, PartialEq, Eq, Structural)]
pub struct ElfSection {
    /// Physical address of the section.
    pub addr: usize,
    /// Size of the section, in bytes.
    pub size: usize,
    /// ELF section flags (writable 0x1, allocated 0x2, executable 0x4).
    pub flags: u64,
}

/// Whether the section occupies memory.
pub open spec fn is_allocated(s: ElfSection) -> bool {
    s.flags & 2 != 0
}

impl ElfSection {
    /// Whether the section occupies memory.
    pub fn is_allocated(&self) -> (r: bool)
        ensures
            r == is_allocated(*self),
    {
        self.flags & 2 != 0
    }
}

/// The least address of an allocated section of `s`, if there is one.
pub open spec fn kernel_start_of(s: Seq<ElfSection>) -> Option<nat>
    decreases s.len(),
{
    if s.len() == 0 {
        None
    } else {
        let rest = kernel_start_of(s.drop_last());
        let last = s.last();
        if !is_allocated(last) {
            rest
        } else {
            match rest {
                Some(m) => Some(if (last.addr as nat) < m { last.addr as nat } else { m }),
                None => Some(last.addr as nat),
            }
        }
    }
}

/// The greatest end address (address plus size) of an allocated section
/// of `s`, if there is one.
pub open spec fn kernel_end_of(s: Seq<ElfSection>) -> Option<nat>
    decreases s.len(),
{
    if s.len() == 0 {
        None
    } else {
        let rest = kernel_end_of(s.drop_last());
        let last = s.last();
        let end = last.addr as nat + last.size as nat;
        if !is_allocated(last) {
            rest
        } else {
            match rest {
                Some(m) => Some(if end > m { end } else { m }),
                None => Some(end),
            }
        }
    }
}

/// Where the kernel image lies: the least start and the greatest end of
/// its allocated sections; `None` if no section is allocated.
pub fn kernel_bounds(sections: &[ElfSection]) -> (r: Option<(usize, usize)>)
    requires
        forall|i: int| 0 <= i < sections@.len() ==> #[trigger] sections@[i].addr + sections@[i].size <= usize::MAX,
    ensures
        r is Some <==> kernel_start_of(sections@) is Some,
        r matches Some((start, end)) ==> {
            &&& kernel_start_of(sections@) == Some(start as nat)
            &&& kernel_end_of(sections@) == Some(end as nat)
        },
{
    let mut start: Option<usize> = None;
    let mut end: Option<usize> = None;
    let mut i: usize = 0;
    while i < sections.len()
        invariant
            i <= sections@.len(),
            forall|j: int| 0 <= j < sections@.len() ==> #[trigger] sections@[j].addr + sections@[j].size <= usize::MAX,
            start is Some <==> kernel_start_of(sections@.subrange(0, i as int)) is Some,
            end is Some <==> kernel_start_of(sections@.subrange(0, i as int)) is Some,
            start matches Some(a) ==> kernel_start_of(sections@.subrange(0, i as int)) == Some(a as nat),
            end matches Some(b) ==> kernel_end_of(sections@.subrange(0, i as int)) == Some(b as nat),
            kernel_end_of(sections@.subrange(0, i as int)) is Some <==> kernel_start_of(sections@.subrange(0, i as int)) is Some,
        decreases sections@.len() - i,
    {
        let section = sections[i];
        proof {
            let s = sections@.subrange(0, i as int + 1);
            assert(s.drop_last() =~= sections@.subrange(0, i as int));
            assert(s.last() == section);
        }
        if section.is_allocated() {
            let section_end = section.addr + section.size;
            start = match start {
                Some(a) => Some(if section.addr < a { section.addr } else { a }),
                None => Some(section.addr),
            };
            end = match end {
                Some(b) => Some(if section_end > b { section_end } else { b }),
                None => Some(section_end),
            };
        }
        i = i + 1;
    }
    assert(sections@.subrange(0, sections@.len() as int) =~= sections@);
    match (start, end) {
        (Some(a), Some(b)) => Some((a, b)),
        _ => None,
    }
}

/// Number of pages that the stack allocator hands out.
pub const STACK_ALLOCATOR_PAGES: usize = 100;

/// The first and the last page of the kernel heap.
pub fn heap_pages() -> (r: (Page, Page))
    ensures
        r.0@ == HEAP_START as nat / PAGE_SIZE as nat,
        r.1@ == (HEAP_START + HEAP_SIZE - 1) as nat / PAGE_SIZE as nat,
{
    let heap_start_page = Page::containing_address(HEAP_START);
    let heap_end_page = Page::containing_address(HEAP_START + HEAP_SIZE - 1);
    (heap_start_page, heap_end_page)
}

/// The pages the stack allocator hands out: the 101 pages from the one
/// after `heap_end_page` on.
pub fn stack_allocator_range(heap_end_page: Page) -> (it: PageIter)
    requires
        heap_end_page@ + 1 + STACK_ALLOCATOR_PAGES < usize::MAX,
    ensures
        it.start() == heap_end_page@ + 1,
        it.end() == heap_end_page@ + 1 + STACK_ALLOCATOR_PAGES,
{
    let stack_alloc_start = Page::from_number(heap_end_page.number() + 1);
    let stack_alloc_end = Page::from_number(stack_alloc_start.number() + STACK_ALLOCATOR_PAGES);
    Page::range_inclusive(stack_alloc_start, stack_alloc_end)
}

/// The top of a one-page stack taken from `pages`: the first page is left
/// unmapped as a guard page, the stack is the second one, and its top is
/// the address just past it. `None` when fewer than two pages are left;
/// the pages are used up either way.
pub fn double_fault_stack_top(pages: &mut PageIter) -> (r: Option<usize>)
    requires
        old(pages).end() < usize::MAX,
        (old(pages).start() + 2) * PAGE_SIZE as nat <= usize::MAX,
    ensures
        old(pages).remaining().len() >= 2 ==> {
            &&& r == Some(((old(pages).start() + 2) * PAGE_SIZE as nat) as usize)
            &&& final(pages).remaining() == old(pages).remaining().subrange(2, old(pages).remaining().len() as int)
        },
        old(pages).remaining().len() < 2 ==> r is None,
{
    let _guard = pages.next();
    match pages.next() {
        Some(stack) => {
            proof {
                assert(pages.remaining() =~= old(pages).remaining().subrange(2, old(pages).remaining().len() as int));
            }
            Some(stack.start_address() + PAGE_SIZE)
        },
        None => None,
    }
}

} // verus!
