use vstd::prelude::*;
use crate::sys::mem::FRAME_SIZE;
use crate::sys::mem::addr::PhysAddr;
use crate::sys::mem::frame::PhysFrame;
use crate::sys::mem::page::Size4KiB;
use crate::sys::mem::pmm::FrameAllocator;
use crate::util::align::lemma_page_sizes_are_powers_of_two;

verus! {

/// The highest address a usable region may start or end at: two frames
/// below the top of the address space, so that aligning an address of the
/// region up and stepping a frame past it stays in range.
pub const REGION_ADDR_LIMIT: u64 = 0xFFFF_FFFF_FFFF_E000;

/// What a region of physical memory is used for, as the bootloader reports.
#[derive(Debug, Clone, Copy, PartialEq, Eq, Structural)]
pub enum MemoryRegionKind {
    /// Free memory the kernel may use.
    Usable,
    /// Memory the bootloader set up (page tables, boot information).
    Bootloader,
    /// Memory the UEFI firmware reported, with its type tag.
    UnknownUefi(u32),
    /// Memory the BIOS reported, with its E820 type.
    UnknownBios(u32),
}

/// A region of physical memory: `start` up to `end` (exclusive).
#[derive(Debug, Clone, Copy, PartialEq, Eq, Structural)]
pub struct MemoryRegion {
    pub start: u64,
    pub end: u64,
    pub kind: MemoryRegionKind,
}

/// Whether every usable region of `map` starts and ends at or below
/// `REGION_ADDR_LIMIT`.
pub open spec fn regions_fit(map: Seq<MemoryRegion>) -> bool {
    forall|i: int|
        0 <= i < map.len() && (#[trigger] map[i]).kind == MemoryRegionKind::Usable ==> map[i].start
            <= REGION_ADDR_LIMIT && map[i].end <= REGION_ADDR_LIMIT
}

/// The least multiple of 4096 at or above `a`.
pub open spec fn frame_align_up(a: u64) -> int {
    if a % 4096 == 0 {
        a as int
    } else {
        a + 4096 - a % 4096
    }
}

/// One allocation from the region at `idx` on, with the cursor at `cursor`:
/// the region index and cursor it leaves, and the start of the frame it
/// gives. Regions that are not usable are skipped; in a usable one the
/// cursor moves up to the region's start, is aligned to a frame, and the
/// frame there is given when it ends within the region; else the next
/// region is tried, from a cursor of 0.
pub open spec fn boot_alloc(map: Seq<MemoryRegion>, idx: int, cursor: u64) -> (int, u64, Option<u64>)
    decreases map.len() - idx,
{
    if idx < 0 || idx >= map.len() {
        (idx, cursor, None)
    } else if map[idx].kind != MemoryRegionKind::Usable {
        boot_alloc(map, idx + 1, cursor)
    } else {
        let c = if cursor < map[idx].start {
            map[idx].start
        } else {
            cursor
        };
        let aligned = frame_align_up(c);
        if aligned + 4096 <= map[idx].end {
            (idx, (aligned + 4096) as u64, Some(aligned as u64))
        } else {
            boot_alloc(map, idx + 1, 0)
        }
    }
}

/// A frame allocator for the time before the buddy allocator exists: it
/// walks the bootloader's memory map once, handing out the frames of the
/// usable regions in order.
pub struct BootFrameAllocator {
    memory_map: Vec<MemoryRegion>,
    region_idx: usize,
    cursor: PhysAddr,
}

impl BootFrameAllocator {
    #[verifier::type_invariant]
    spec fn inv(self) -> bool {
        &&& regions_fit(self.memory_map@)
        &&& self.cursor.0 <= REGION_ADDR_LIMIT
    }

    /// The memory map.
    pub closed spec fn spec_map(&self) -> Seq<MemoryRegion> {
        self.memory_map@
    }

    /// The index of the region being handed out.
    pub closed spec fn spec_idx(&self) -> usize {
        self.region_idx
    }

    /// Where the next frame is searched from.
    pub closed spec fn spec_cursor(&self) -> u64 {
        self.cursor.0
    }

    /// The allocator with the same map, at region `idx` and cursor `cursor`.
    pub closed spec fn spec_with(self, idx: usize, cursor: u64) -> Self {
        BootFrameAllocator { memory_map: self.memory_map, region_idx: idx, cursor: PhysAddr(cursor) }
    }

    /// The allocator over `memory_map`, at its first region.
    pub fn init(memory_map: Vec<MemoryRegion>) -> (r: Self)
        requires
            regions_fit(memory_map@),
        ensures
            r.spec_map() == memory_map@,
            r.spec_idx() == 0,
            r.spec_cursor() == 0,
    {
        BootFrameAllocator { memory_map, region_idx: 0, cursor: PhysAddr::zero() }
    }
}

impl FrameAllocator<Size4KiB> for BootFrameAllocator {
    open spec fn next_alloc(&self) -> (Self, Option<PhysFrame<Size4KiB>>) {
        let (i, c, f) = boot_alloc(self.spec_map(), self.spec_idx() as int, self.spec_cursor());
        (
            self.spec_with(i as usize, c),
            match f {
                Some(a) => Some(PhysFrame::<Size4KiB>::spec_from_start(a)),
                None => None,
            },
        )
    }

    open spec fn accepts_dealloc(&self) -> bool {
        false
    }

    open spec fn after_dealloc(&self, frame: PhysFrame<Size4KiB>) -> Self {
        *self
    }

    fn alloc_frame(&mut self) -> (r: Option<PhysFrame<Size4KiB>>) {
        proof {
            use_type_invariant(&*self);
            lemma_page_sizes_are_powers_of_two();
        }
        let ghost map = self.memory_map@;
        let ghost goal = boot_alloc(map, self.region_idx as int, self.cursor.0);
        while self.region_idx < self.memory_map.len()
            invariant
                self.memory_map == old(self).memory_map,
                self.memory_map@ == map,
                regions_fit(map),
                self.cursor.0 <= REGION_ADDR_LIMIT,
                boot_alloc(map, self.region_idx as int, self.cursor.0) == goal,
                goal == boot_alloc(map, old(self).region_idx as int, old(self).cursor.0),
                crate::util::align::is_power_of_two(4096),
            decreases self.memory_map@.len() - self.region_idx,
        {
            let region = self.memory_map[self.region_idx];
            let usable = match region.kind {
                MemoryRegionKind::Usable => true,
                _ => false,
            };
            if !usable {
                self.region_idx = self.region_idx + 1;
                continue;
            }
            proof {
                assert(map[self.region_idx as int] == region);
            }
            if self.cursor.as_u64() < region.start {
                self.cursor = PhysAddr::new(region.start);
            }
            let aligned = self.cursor.align_up(FRAME_SIZE);
            if aligned.as_u64() + FRAME_SIZE <= region.end {
                self.cursor = aligned.add(FRAME_SIZE);
                return Some(PhysFrame::containing_address(aligned));
            }
            self.region_idx = self.region_idx + 1;
            self.cursor = PhysAddr::zero();
        }
        None
    }

    fn dealloc_frame(&mut self, frame: PhysFrame<Size4KiB>) {
    }
}

} // verus!
