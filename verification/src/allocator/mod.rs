use vstd::prelude::*;
use crate::sys::mem::addr::VirtAddr;
use crate::sys::mem::page::Size4KiB;
use crate::sys::mem::vmm::Page;

pub mod mmio;

verus! {

/// Where the kernel heap starts.
pub const HEAP_START: u64 = 0x4444_4444_0000;

/// The size of the kernel heap in bytes.
pub const HEAP_SIZE: u64 = 10 * 1000 * 1024;

/// The first and the last 4 KiB page of the heap, which are mapped with
/// everything between them.
pub fn heap_page_range() -> (r: (Page<Size4KiB>, Page<Size4KiB>))
    ensures
        r.0.start_spec() == HEAP_START - HEAP_START % 4096,
        r.1.start_spec() == (HEAP_START + HEAP_SIZE - 1) - (HEAP_START + HEAP_SIZE - 1) % 4096,
{
    let heap_start = VirtAddr::new(HEAP_START);
    let heap_end = heap_start.add(HEAP_SIZE - 1);
    let heap_start_page = Page::<Size4KiB>::containing_address(heap_start);
    let heap_end_page = Page::<Size4KiB>::containing_address(heap_end);
    (heap_start_page, heap_end_page)
}

} // verus!
