use std::collections::HashMap;

use kernel::sys::mem::addr::{PhysAddr, VirtAddr};
use kernel::sys::mem::frame::PhysFrame;
use kernel::sys::mem::page::{PageSize, Size1GiB, Size2MiB, Size4KiB};
use kernel::sys::mem::pmm::boot::{BootFrameAllocator, MemoryRegion, MemoryRegionKind};
use kernel::sys::mem::pmm::buddy::BuddyFrameAllocator;
use kernel::sys::mem::pmm::{alloc_frames, FrameAllocator};
use kernel::sys::mem::vmm::mapper::mapped_page_table::MappedPageTable;
use kernel::sys::mem::vmm::mapper::{MapError, TranslateError, UnmapError};
use kernel::sys::mem::vmm::paging::{FrameError, PageTable, PageTableEntry, PageTableFlags, PageTableIndex};
use kernel::sys::mem::vmm::Page;

fn frame_at(addr: u64) -> PhysFrame<Size4KiB> {
    match PhysFrame::from_start_address(PhysAddr::new(addr)) {
        Ok(f) => f,
        Err(_) => panic!("unaligned frame"),
    }
}

fn usable(start: u64, end: u64) -> MemoryRegion {
    MemoryRegion { start, end, kind: MemoryRegionKind::Usable }
}

#[test]
fn addresses_align() {
    let a = PhysAddr::new(0x1234);
    assert_eq!(a.align_down(0x1000).as_u64(), 0x1000);
    assert_eq!(a.align_up(0x1000).as_u64(), 0x2000);
    assert!(!a.is_aligned(0x1000));
    assert!(PhysAddr::new(0x3000).is_aligned(0x1000));
    assert_eq!(PhysAddr::zero().as_u64(), 0);
    let v = VirtAddr::new(0xFFFF_8000_0000_1234);
    assert_eq!(v.align_down(0x1000).as_u64(), 0xFFFF_8000_0000_1000);
    assert_eq!(v.add(0x10).as_u64(), 0xFFFF_8000_0000_1244);
    assert_eq!(v.sub(0x234).as_u64(), 0xFFFF_8000_0000_1000);
}

#[test]
fn virtual_address_table_indices() {
    // 0x0000_7F80_4020_1000: PML4 255, PDPT 1, PD 1, PT 1.
    let v = VirtAddr::new(0x0000_7F80_4020_1000);
    assert_eq!(v.pml4().as_usize(), 255);
    assert_eq!(v.pdpt().as_usize(), 1);
    assert_eq!(v.pd().as_usize(), 1);
    assert_eq!(v.pt().as_usize(), 1);
    assert_eq!(PageTableIndex::new_truncated(513).as_usize(), 1);
    assert_eq!(PageTableIndex::new(511).as_usize(), 511);
}

#[test]
fn frames_from_addresses() {
    assert!(PhysFrame::<Size4KiB>::from_start_address(PhysAddr::new(0x1001)).is_err());
    let f = frame_at(0x5000);
    assert_eq!(f.start_addr().as_u64(), 0x5000);
    let g = PhysFrame::<Size2MiB>::containing_address(PhysAddr::new(0x0030_1234));
    assert_eq!(g.start_addr().as_u64(), 0x0020_0000);
    assert_eq!(Size1GiB::size(), 0x4000_0000);
}

#[test]
fn pages_from_addresses() {
    let p = Page::<Size4KiB>::containing_address(VirtAddr::new(0x4000_1FFF));
    assert_eq!(p.start_address().as_u64(), 0x4000_1000);
    assert_eq!(p.size(), 4096);
    assert_eq!(p.p4_index().as_usize(), 0);
    assert_eq!(p.p3_index().as_usize(), 1);
    assert_eq!(p.p2_index().as_usize(), 0);
    assert_eq!(p.p1_index().as_usize(), 1);
}

#[test]
fn flags_contains_is_subset() {
    let rw = PageTableFlags::present().bitor(PageTableFlags::writable());
    // `contains` holds when every bit of the receiver is in the argument.
    assert!(PageTableFlags::present().contains(rw));
    assert!(!rw.contains(PageTableFlags::present()));
    let mut f = PageTableFlags::none();
    assert!(f.empty());
    f.set(PageTableFlags::user());
    assert_eq!(f.bits(), 4);
    f.unset(PageTableFlags::user());
    assert_eq!(f.bits(), 0);
    assert_eq!(rw.bitand(PageTableFlags::writable()).bits(), 2);
}

#[test]
fn entry_frame_reads_present_entries_only() {
    let e = PageTableEntry::from_raw(0x5000 | 1);
    assert!(e.is_present());
    assert!(!e.is_huge());
    match e.frame() {
        Ok(f) => assert_eq!(f.start_addr().as_u64(), 0x5000),
        Err(_) => panic!("present entry has a frame"),
    }
    // Present and writable: the flags are not within the present bit.
    let w = PageTableEntry::from_raw(0x5000 | 3);
    assert!(matches!(w.frame(), Err(FrameError::FrameNotPresent)));
    // No flags at all lie within both the present and the huge bit.
    let z = PageTableEntry::from_raw(0x5000);
    assert!(matches!(z.frame(), Err(FrameError::HugeFrame)));
    assert!(PageTableEntry::unused().is_unused());
}

#[test]
fn entry_setters() {
    let mut e = PageTableEntry::unused();
    e.set_frame(&frame_at(0x7000), PageTableFlags::present());
    assert_eq!(e.raw(), 0x7001);
    e.set_flags(PageTableFlags::writable());
    assert_eq!(e.raw(), 0x7002);
    assert_eq!(e.addr().as_u64(), 0x7000);
    assert_eq!(e.flags().bits(), 2);
    e.clear();
    assert!(e.is_unused());
}

#[test]
fn page_table_zero_and_empty() {
    let mut t = PageTable::new();
    assert!(t.is_empty());
    t.set_entry(PageTableIndex::new(7), PageTableEntry::from_raw(0x1001));
    assert!(!t.is_empty());
    assert_eq!(t.entry(PageTableIndex::new(7)).raw(), 0x1001);
    t.zero();
    assert!(t.is_empty());
}

#[test]
fn buddy_bitmap_sizes() {
    assert_eq!(BuddyFrameAllocator::bitmap_bits_at_order(100, 0), 100);
    assert_eq!(BuddyFrameAllocator::bitmap_bits_at_order(100, 3), 13);
    assert_eq!(BuddyFrameAllocator::bitmap_bytes_at_order(100, 0), 13);
    assert_eq!(BuddyFrameAllocator::bitmap_bytes_at_order(100, 3), 2);
    // 13 + 7 + 4 + 2 + 1 * 7 bytes over orders 0 to 10.
    assert_eq!(BuddyFrameAllocator::total_bitmap_bytes(100), 33);
    assert_eq!(BuddyFrameAllocator::bitmap_frames_needed(100), 4096);
}

#[test]
fn buddy_alloc_hands_out_blocks_aligned_to_their_order() {
    let frames: Vec<usize> = (0..16).collect();
    let mut a = BuddyFrameAllocator::new(16, VirtAddr::new(0), &frames);
    for order in 0..5 {
        if let Some(f) = a.alloc_order(order) {
            let idx = (f.start_addr().as_u64() / 4096) as usize;
            assert!(idx < 16);
            assert_eq!(idx % (1 << order), 0);
        }
    }
    assert!(a.alloc_order(11).is_none());
}

#[test]
fn buddy_alloc_takes_lowest_clear_bit() {
    // All 8 frames freed merge into one block of order 3: every bit of
    // order 0 is clear, so the lowest clear bit, block 0, is handed out.
    let frames: Vec<usize> = (0..8).collect();
    let mut a = BuddyFrameAllocator::new(8, VirtAddr::new(0), &frames);
    let f = a.alloc_order(0).expect("a block");
    assert_eq!(f.start_addr().as_u64(), 0);
    let g = a.alloc_order(0).expect("a block");
    assert_eq!(g.start_addr().as_u64(), 0);
}

#[test]
fn buddy_free_marks_block_without_buddy() {
    let mut a = BuddyFrameAllocator::new(8, VirtAddr::new(0), &[]);
    // Nothing free yet: every bit is clear, block 0 of order 0 comes first.
    assert_eq!(a.alloc_order(0).map(|f| f.start_addr().as_u64()), Some(0));
    a.free_order(0, 0);
    // Block 0 is marked now; the lowest clear bit is block 1.
    assert_eq!(a.alloc_order(0).map(|f| f.start_addr().as_u64()), Some(0x1000));
}

#[test]
fn boot_allocator_walks_usable_regions() {
    let map = vec![
        MemoryRegion { start: 0, end: 0x1000, kind: MemoryRegionKind::Bootloader },
        usable(0x1800, 0x4000),
        MemoryRegion { start: 0x4000, end: 0x8000, kind: MemoryRegionKind::UnknownBios(2) },
        usable(0x9000, 0xA000),
    ];
    let mut a = BootFrameAllocator::init(map);
    let starts: Vec<u64> = (0..4)
        .map(|_| a.alloc_frame().map(|f| f.start_addr().as_u64()).unwrap_or(u64::MAX))
        .collect();
    // 0x1800 aligns up to 0x2000; 0x3000 is the last frame that fits.
    assert_eq!(starts, vec![0x2000, 0x3000, 0x9000, u64::MAX]);
    assert!(a.alloc_frame().is_none());
}

#[test]
fn alloc_frames_gives_first_of_several() {
    let mut a = BootFrameAllocator::init(vec![usable(0x10000, 0x14000)]);
    let f = alloc_frames(&mut a, 3).expect("three frames");
    assert_eq!(f.start_addr().as_u64(), 0x10000);
    assert_eq!(a.alloc_frame().map(|f| f.start_addr().as_u64()), Some(0x13000));
    assert!(alloc_frames(&mut a, 2).is_none());
}

const OFFSET: u64 = 0xFFFF_8000_0000_0000;

fn empty_mapper() -> MappedPageTable {
    MappedPageTable::new(PageTable::new(), VirtAddr::new(OFFSET), HashMap::new())
}

#[test]
fn translate_after_map_gives_the_frame() {
    let mut m = empty_mapper();
    let mut alloc = BootFrameAllocator::init(vec![usable(0x10000, 0x20000)]);
    let page = Page::<Size4KiB>::containing_address(VirtAddr::new(0x4000_0000));
    let r = m.map_to(page, frame_at(0x5000), PageTableFlags::present(), &mut alloc);
    match r {
        Ok(flush) => assert_eq!(flush.page().start_address().as_u64(), 0x4000_0000),
        Err(_) => panic!("mapping failed"),
    }
    // Level-4 entries 0 and 1 point to the two tables allocated.
    assert_eq!(m.level_4_table().entry(PageTableIndex::new(0)).raw(), 0x10001);
    assert_eq!(m.level_4_table().entry(PageTableIndex::new(1)).raw(), 0x11001);
    assert_eq!(m.offset().as_u64(), OFFSET);
    match m.translate_page(page) {
        Ok(f) => assert_eq!(f.start_addr().as_u64(), 0x5000),
        Err(e) => panic!("translation failed: {:?}", e),
    }
}

#[test]
fn map_twice_is_already_mapped() {
    let mut m = empty_mapper();
    let mut alloc = BootFrameAllocator::init(vec![usable(0x10000, 0x20000)]);
    let page = Page::<Size4KiB>::containing_address(VirtAddr::new(0x4000_0000));
    assert!(m.map_to(page, frame_at(0x5000), PageTableFlags::present(), &mut alloc).is_ok());
    match m.map_to(page, frame_at(0x6000), PageTableFlags::present(), &mut alloc) {
        Err(MapError::AlreadyMapped(f)) => assert_eq!(f.start_addr().as_u64(), 0x6000),
        _ => panic!("expected AlreadyMapped"),
    }
}

#[test]
fn map_without_frames_fails() {
    let mut m = empty_mapper();
    let mut alloc = BootFrameAllocator::init(vec![]);
    let page = Page::<Size4KiB>::containing_address(VirtAddr::new(0x4000_0000));
    assert!(matches!(
        m.map_to(page, frame_at(0x5000), PageTableFlags::present(), &mut alloc),
        Err(MapError::FrameAllocationFailed)
    ));
}

#[test]
fn unmap_after_map_gives_back_the_frame() {
    let mut m = empty_mapper();
    let mut alloc = BootFrameAllocator::init(vec![usable(0x10000, 0x20000)]);
    let page = Page::<Size4KiB>::containing_address(VirtAddr::new(0x4000_0000));
    assert!(m.map_to(page, frame_at(0x5000), PageTableFlags::present(), &mut alloc).is_ok());
    match m.unmap(page) {
        Ok((f, flush)) => {
            assert_eq!(f.start_addr().as_u64(), 0x5000);
            assert_eq!(flush.page().start_address().as_u64(), 0x4000_0000);
        }
        Err(_) => panic!("unmap failed"),
    }
    assert!(matches!(m.translate_page(page), Err(TranslateError::PageNotMapped)));
    // The entry is now unused, which reads as a huge frame.
    assert!(matches!(m.unmap(page), Err(UnmapError::ParentHugePage)));
}

#[test]
fn translate_unmapped_page() {
    let m = empty_mapper();
    let page = Page::<Size4KiB>::containing_address(VirtAddr::new(0x4000_0000));
    // The unused level-4 entry has no flags, which reads as a huge frame.
    assert!(matches!(m.translate_page(page), Err(TranslateError::ParentHugePage)));
}

#[test]
fn map_huge_page_sets_huge_bit() {
    let mut m = empty_mapper();
    let mut alloc = BootFrameAllocator::init(vec![usable(0x10000, 0x20000)]);
    let page = Page::<Size2MiB>::containing_address(VirtAddr::new(0x4000_0000));
    let frame = PhysFrame::<Size2MiB>::containing_address(PhysAddr::new(0x0020_0000));
    assert!(m.map_to(page, frame, PageTableFlags::present(), &mut alloc).is_ok());
    assert_eq!(m.level_4_table().entry(PageTableIndex::new(0)).raw(), 0x10001);
}

#[test]
fn identity_map_uses_frame_address() {
    let mut m = empty_mapper();
    let mut alloc = BootFrameAllocator::init(vec![usable(0x10000, 0x20000)]);
    match m.identity_map(frame_at(0x4000_0000), PageTableFlags::present(), &mut alloc) {
        Ok(flush) => assert_eq!(flush.page().start_address().as_u64(), 0x4000_0000),
        Err(_) => panic!("identity map failed"),
    }
    let page = Page::<Size4KiB>::containing_address(VirtAddr::new(0x4000_0000));
    match m.translate_page(page) {
        Ok(f) => assert_eq!(f.start_addr().as_u64(), 0x4000_0000),
        Err(_) => panic!("translation failed"),
    }
}

#[test]
fn heap_spans_whole_pages() {
    let (first, last) = kernel::allocator::heap_page_range();
    assert_eq!(first.start_address().as_u64(), 0x4444_4444_0000);
    assert_eq!(last.start_address().as_u64(), 0x4444_44E0_3000);
    let pages = (last.start_address().as_u64() - first.start_address().as_u64()) / 4096 + 1;
    assert_eq!(pages, 2500);
}
