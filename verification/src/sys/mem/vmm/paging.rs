use vstd::prelude::*;
use crate::sys::mem::addr::PhysAddr;
use crate::sys::mem::frame::PhysFrame;
use crate::sys::mem::page::{PageSize, Size4KiB};

verus! {

/// An index into a page table: a number below 512.
#[derive(Clone, Copy, PartialEq, Eq, Structural, PartialOrd, Ord, Debug)]
pub struct PageTableIndex(u16);

impl PageTableIndex {
    /// The index as a number.
    pub closed spec fn view(&self) -> u16 {
        self.0
    }

    #[verifier::type_invariant]
    spec fn below_table_size(&self) -> bool {
        self.0 < 512
    }

    /// The index `index`, which must be below 512.
    pub fn new(index: u16) -> (r: Self)
        requires
            index < 512,
        ensures
            r@ == index,
            r@ < 512,
    {
        Self(index)
    }

    /// The index `index` taken modulo 512.
    pub fn new_truncated(index: u16) -> (r: Self)
        ensures
            r@ == index % 512,
            r@ < 512,
    {
        Self(index % 512)
    }

    /// The index as a `usize`.
    pub fn as_usize(self) -> (r: usize)
        ensures
            r == self@,
            r < 512,
    {
        proof {
            use_type_invariant(&self);
        }
        self.0 as usize
    }
}

/// Bits 12 to 51 of an entry: the physical address it points to.
pub const PHYS_MASK: u64 = 0x000f_ffff_ffff_f000;

/// The number of entries of a page table.
pub const TABLE_ENTRY_COUNT: usize = 512;

/// The flag bits of a page-table entry.
#[derive(Clone, Copy, PartialEq, Eq, Structural, Debug)]
pub struct PageTableFlags(pub u64);

/// Whether every bit of `a` is also set in `b`: what `a.contains(b)`
/// computes.
pub open spec fn bits_within(a: u64, b: u64) -> bool {
    a & b == a
}

impl PageTableFlags {
    /// The flag value with raw bits `0`.
    pub fn none() -> (r: Self)
        ensures
            r.0 == 0,
    {
        Self(0)
    }

    /// The flag value with raw bits `1`.
    pub fn present() -> (r: Self)
        ensures
            r.0 == 1,
    {
        Self(1)
    }

    /// The flag value with raw bits `2`.
    pub fn writable() -> (r: Self)
        ensures
            r.0 == 2,
    {
        Self(2)
    }

    /// The flag value with raw bits `4`.
    pub fn user() -> (r: Self)
        ensures
            r.0 == 4,
    {
        Self(4)
    }

    /// The flag value with raw bits `8`.
    pub fn write_through() -> (r: Self)
        ensures
            r.0 == 8,
    {
        Self(8)
    }

    /// The flag value with raw bits `16`.
    pub fn cache_disabled() -> (r: Self)
        ensures
            r.0 == 16,
    {
        Self(16)
    }

    /// The flag value with raw bits `32`.
    pub fn accessed() -> (r: Self)
        ensures
            r.0 == 32,
    {
        Self(32)
    }

    /// The flag value with raw bits `64`.
    pub fn dirty() -> (r: Self)
        ensures
            r.0 == 64,
    {
        Self(64)
    }

    /// The flag value with raw bits `128`.
    pub fn huge_table() -> (r: Self)
        ensures
            r.0 == 128,
    {
        Self(128)
    }

    /// The flag value with raw bits `256`.
    pub fn global() -> (r: Self)
        ensures
            r.0 == 256,
    {
        Self(256)
    }

    /// The flag value with raw bits `0x8000_0000_0000_0000`.
    pub fn no_execute() -> (r: Self)
        ensures
            r.0 == 0x8000_0000_0000_0000,
    {
        Self(0x8000_0000_0000_0000)
    }

    /// The raw bits.
    pub fn bits(self) -> (r: u64)
        ensures
            r == self.0,
    {
        self.0
    }

    /// Whether every bit of `self` is also set in `other`.
    pub fn contains(self, other: Self) -> (r: bool)
        ensures
            r == bits_within(self.0, other.0),
    {
        self.0 & other.0 == self.0
    }

    /// Sets the bits of `flag`.
    pub fn set(&mut self, flag: Self)
        ensures
            final(self).0 == old(self).0 | flag.0,
    {
        self.0 = self.0 | flag.0;
    }

    /// Clears the bits of `flag`.
    pub fn unset(&mut self, flag: Self)
        ensures
            final(self).0 == old(self).0 & !flag.0,
    {
        self.0 = self.0 & !flag.0;
    }

    /// The bits set in either.
    pub fn bitor(self, rhs: Self) -> (r: Self)
        ensures
            r.0 == self.0 | rhs.0,
    {
        Self(self.0 | rhs.0)
    }

    /// The bits set in both.
    pub fn bitand(self, rhs: Self) -> (r: Self)
        ensures
            r.0 == self.0 & rhs.0,
    {
        Self(self.0 & rhs.0)
    }

    /// Whether no bit is set.
    pub fn empty(self) -> (r: bool)
        ensures
            r == (self.0 == 0),
    {
        self.0 == 0
    }
}

/// The errors of reading the frame of a page-table entry.
#[derive(Debug, Clone, Copy, PartialEq, Eq, Structural)]
pub enum FrameError {
    FrameNotPresent,
    HugeFrame,
}

/// The flag bits of the raw entry `raw`.
pub open spec fn entry_flags(raw: u64) -> u64 {
    raw & !PHYS_MASK
}

/// The physical address of the raw entry `raw`.
pub open spec fn entry_addr(raw: u64) -> u64 {
    raw & PHYS_MASK
}

/// Whether the raw entry `raw` reads as present: its flags lie within the
/// present bit.
pub open spec fn entry_present(raw: u64) -> bool {
    bits_within(entry_flags(raw), 1)
}

/// Whether the raw entry `raw` reads as huge: its flags lie within the
/// huge-page bit.
pub open spec fn entry_huge(raw: u64) -> bool {
    bits_within(entry_flags(raw), 128)
}

/// An entry of a page table.
#[derive(Clone, Copy, Debug)]
pub struct PageTableEntry(u64);

impl PageTableEntry {
    /// The raw value of the entry.
    pub closed spec fn view(&self) -> u64 {
        self.0
    }

    /// The raw value of the entry.
    pub fn raw(&self) -> (r: u64)
        ensures
            r == self@,
    {
        self.0
    }

    /// The entry with the raw value `raw`.
    pub fn from_raw(raw: u64) -> (r: Self)
        ensures
            r@ == raw,
    {
        Self(raw)
    }

    /// The entry that maps nothing.
    pub fn unused() -> (r: Self)
        ensures
            r@ == 0,
    {
        Self(0)
    }

    /// Whether the entry is 0.
    pub fn is_unused(&self) -> (r: bool)
        ensures
            r == (self@ == 0),
    {
        self.0 == 0
    }

    /// Sets the entry to 0.
    pub fn clear(&mut self)
        ensures
            final(self)@ == 0,
    {
        self.0 = 0;
    }

    /// Whether the entry's flags lie within the present bit.
    pub fn is_present(&self) -> (r: bool)
        ensures
            r == entry_present(self@),
    {
        self.flags().contains(PageTableFlags::present())
    }

    /// Whether the entry's flags lie within the huge-page bit.
    pub fn is_huge(&self) -> (r: bool)
        ensures
            r == entry_huge(self@),
    {
        self.flags().contains(PageTableFlags::huge_table())
    }

    /// The flag bits of the entry.
    pub fn flags(&self) -> (r: PageTableFlags)
        ensures
            r.0 == entry_flags(self@),
    {
        PageTableFlags(self.0 & !PHYS_MASK)
    }

    /// The physical address the entry points to.
    pub fn addr(&self) -> (r: PhysAddr)
        ensures
            r.0 == entry_addr(self@),
    {
        PhysAddr::new(self.0 & PHYS_MASK)
    }

    /// The frame the entry points to: `FrameNotPresent` when it does not
    /// read as present, `HugeFrame` when it reads as huge.
    pub fn frame(self) -> (r: Result<PhysFrame<Size4KiB>, FrameError>)
        ensures
            !entry_present(self@) ==> r == Err::<PhysFrame<Size4KiB>, FrameError>(FrameError::FrameNotPresent),
            entry_present(self@) && entry_huge(self@) ==> r == Err::<PhysFrame<Size4KiB>, FrameError>(FrameError::HugeFrame),
            entry_present(self@) && !entry_huge(self@) ==> (r matches Ok(f) && f.start_spec() == entry_addr(self@)),
    {
        if !self.is_present() {
            Err(FrameError::FrameNotPresent)
        } else if self.is_huge() {
            Err(FrameError::HugeFrame)
        } else {
            proof {
                let raw = self.0;
                assert((raw & PHYS_MASK) % 4096 == 0) by (bit_vector);
            }
            Ok(PhysFrame::containing_address(self.addr()))
        }
    }

    /// Points the entry at `addr` with the flags `flags`.
    pub fn set_addr_and_flags(&mut self, addr: PhysAddr, flags: PageTableFlags)
        ensures
            final(self)@ == addr.0 | flags.0,
    {
        self.0 = addr.0 | flags.0;
    }

    /// Points the entry at `frame` with the flags `flags`.
    pub fn set_frame<S: PageSize>(&mut self, frame: &PhysFrame<S>, flags: PageTableFlags)
        ensures
            final(self)@ == frame.start_spec() | flags.0,
    {
        self.set_addr_and_flags(frame.start_addr(), flags);
    }

    /// Replaces the flags of the entry, keeping its address.
    pub fn set_flags(&mut self, flags: PageTableFlags)
        ensures
            final(self)@ == entry_addr(old(self)@) | flags.0,
    {
        self.0 = (self.0 & PHYS_MASK) | flags.0;
    }
}

/// A page table: 512 entries.
pub struct PageTable {
    entries: [PageTableEntry; 512],
}

impl PageTable {
    /// The raw values of the entries.
    pub closed spec fn view(&self) -> Seq<u64> {
        self.entries@.map_values(|e: PageTableEntry| e@)
    }

    /// A table has 512 entries.
    pub proof fn lemma_len(&self)
        ensures
            self@.len() == 512,
    {
    }

    /// A table of unused entries.
    pub fn new() -> (r: Self)
        ensures
            r@.len() == 512,
            forall|i: int| 0 <= i < 512 ==> #[trigger] r@[i] == 0,
    {
        let e = PageTableEntry::unused();
        let r = Self { entries: [e; 512] };
        proof {
            assert forall|i: int| 0 <= i < 512 implies #[trigger] r@[i] == 0 by {
                assert(r.entries@[i] == e);
            }
        }
        r
    }

    /// Sets every entry to unused.
    pub fn zero(&mut self)
        ensures
            final(self)@.len() == 512,
            forall|i: int| 0 <= i < 512 ==> #[trigger] final(self)@[i] == 0,
    {
        let mut i: usize = 0;
        while i < 512
            invariant
                i <= 512,
                self.entries@.len() == 512,
                forall|j: int| 0 <= j < i ==> #[trigger] self.entries@[j]@ == 0,
            decreases 512 - i,
        {
            self.entries[i].clear();
            i = i + 1;
        }
    }

    /// Whether every entry is unused.
    pub fn is_empty(&self) -> (r: bool)
        ensures
            r == (forall|i: int| 0 <= i < 512 ==> #[trigger] self@[i] == 0),
    {
        let mut i: usize = 0;
        while i < 512
            invariant
                i <= 512,
                self@.len() == 512,
                forall|j: int| 0 <= j < i ==> #[trigger] self@[j] == 0,
            decreases 512 - i,
        {
            if !self.entries[i].is_unused() {
                proof {
                    assert(self@[i as int] != 0);
                }
                return false;
            }
            i = i + 1;
        }
        true
    }

    /// The entry at index `index`.
    pub fn entry(&self, index: PageTableIndex) -> (r: PageTableEntry)
        ensures
            r@ == self@[index@ as int],
            index@ < 512,
    {
        self.entries[index.as_usize()]
    }

    /// Replaces the entry at index `index`.
    pub fn set_entry(&mut self, index: PageTableIndex, entry: PageTableEntry)
        ensures
            index@ < 512,
            final(self)@ == old(self)@.update(index@ as int, entry@),
    {
        let i = index.as_usize();
        self.entries[i] = entry;
        proof {
            assert(self@ =~= old(self)@.update(index@ as int, entry@));
        }
    }
}

} // verus!
