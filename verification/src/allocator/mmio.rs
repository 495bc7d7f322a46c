use vstd::prelude::*;
use crate::sys::mem::addr::{PhysAddr, VirtAddr};
use crate::util::align::{is_power_of_two, lemma_align_mask_u64, lemma_page_sizes_are_powers_of_two};

verus! {

/// The size of a page in bytes.
pub const PAGE_SIZE: u64 = 0x1000;

/// `x86_64::align_down`: the greatest multiple of the power of two `align`
/// at or below `addr`, which is `addr` less its remainder modulo `align`.
#[verifier::external_body]
fn x86_align_down(addr: u64, align: u64) -> (r: u64)
    requires
        is_power_of_two(align as int),
    ensures
        r == addr - addr % align,
{
    x86_64::align_down(addr, align)
}

/// Where a physical region `[phys, phys + size)` is mapped: the page it
/// starts in, the offset into that page, and the whole pages it spans.
#[derive(Clone, Copy, Debug)]
pub struct MmioLayout {
    pub phys_start: u64,
    pub offset: u64,
    pub aligned_size: u64,
}

/// The pages that map the physical region of `size` bytes at `phys`: the
/// start rounded down to a page, and the size plus that offset rounded up
/// to whole pages.
pub fn mmio_layout(phys: u64, size: u64) -> (r: MmioLayout)
    requires
        size + phys % 4096 + 4096 <= u64::MAX,
    ensures
        r.phys_start == phys - phys % 4096,
        r.offset == phys % 4096,
        r.aligned_size == (size + r.offset + 4095) - (size + r.offset + 4095) % 4096,
{
    proof {
        lemma_page_sizes_are_powers_of_two();
    }
    let phys_start = x86_align_down(phys, PAGE_SIZE);
    let offset = phys - phys_start;
    let total = size + offset + PAGE_SIZE - 1;
    proof {
        lemma_align_mask_u64(total, PAGE_SIZE);
    }
    let aligned_size = total & !(PAGE_SIZE - 1);
    MmioLayout { phys_start, offset, aligned_size }
}

/// The whole pages a DMA buffer of `size` bytes takes: its size rounded up
/// to a page, and the number of pages.
pub fn dma_layout(size: u64) -> (r: (u64, u64))
    requires
        size + 4096 <= u64::MAX,
    ensures
        r.0 == (size + 4095) - (size + 4095) % 4096,
        r.1 == r.0 / 4096,
{
    proof {
        lemma_page_sizes_are_powers_of_two();
        lemma_align_mask_u64((size + PAGE_SIZE - 1) as u64, PAGE_SIZE);
    }
    let aligned_size = (size + PAGE_SIZE - 1) & !(PAGE_SIZE - 1);
    let pages = aligned_size / PAGE_SIZE;
    (aligned_size, pages)
}

/// A physical region mapped into the virtual address space.
#[derive(Debug)]
pub struct MappedRegion {
    virt: VirtAddr,
    phys: PhysAddr,
    virt_mapped: VirtAddr,
    len: u64,
}

impl MappedRegion {
    pub closed spec fn virt_spec(&self) -> u64 { self.virt.0 }
    pub closed spec fn phys_spec(&self) -> u64 { self.phys.0 }
    pub closed spec fn virt_mapped_spec(&self) -> u64 { self.virt_mapped.0 }
    pub closed spec fn len_spec(&self) -> u64 { self.len }

    /// The region that `layout` describes, mapped at the page `virt_start`:
    /// its virtual address keeps the offset into the first page.
    pub fn new(layout: &MmioLayout, virt_start: VirtAddr) -> (r: Self)
        requires
            virt_start.0 + layout.offset <= u64::MAX,
        ensures
            r.virt_spec() == virt_start.0 + layout.offset,
            r.virt_mapped_spec() == virt_start.0,
            r.phys_spec() == layout.phys_start,
            r.len_spec() == layout.aligned_size,
    {
        MappedRegion {
            virt: virt_start.add(layout.offset),
            virt_mapped: virt_start,
            phys: PhysAddr::new(layout.phys_start),
            len: layout.aligned_size,
        }
    }

    /// The physical address of the first mapped page.
    pub fn phys(&self) -> (r: PhysAddr)
        ensures
            r.0 == self.phys_spec(),
    {
        self.phys
    }

    /// The virtual address of the region's first byte.
    pub fn virt(&self) -> (r: VirtAddr)
        ensures
            r.0 == self.virt_spec(),
    {
        self.virt
    }

    /// The virtual address of the first mapped page.
    pub fn virt_mapped(&self) -> (r: VirtAddr)
        ensures
            r.0 == self.virt_mapped_spec(),
    {
        self.virt_mapped
    }

    /// The length of the mapping, in whole pages' bytes.
    pub fn len(&self) -> (r: u64)
        ensures
            r == self.len_spec(),
    {
        self.len
    }
}

} // verus!
