use vstd::prelude::*;
use crate::util::align::{is_power_of_two, align_down_u64, align_up_u64};
use crate::sys::mem::vmm::paging::PageTableIndex;

verus! {

/// A physical memory address.
#[derive(Clone, Copy, PartialEq, Eq, Structural, PartialOrd, Ord, Debug)]
pub struct PhysAddr(pub u64);

impl PhysAddr {
    /// The address 0.
    pub fn zero() -> (r: Self)
        ensures
            r.0 == 0,
    {
        Self(0u64)
    }

    /// The address `addr`.
    pub fn new(addr: u64) -> (r: Self)
        ensures
            r.0 == addr,
    {
        Self(addr)
    }

    /// The address as an integer.
    pub fn as_u64(self) -> (r: u64)
        ensures
            r == self.0,
    {
        self.0
    }

    /// The greatest multiple of `align` at or below this address.
    pub fn align_down(&self, align: u64) -> (r: Self)
        requires
            is_power_of_two(align as int),
        ensures
            r.0 == self.0 - self.0 % align,
    {
        Self(align_down_u64(self.0, align))
    }

    /// The least multiple of `align` at or above this address.
    pub fn align_up(&self, align: u64) -> (r: Self)
        requires
            is_power_of_two(align as int),
            self.0 + align <= u64::MAX,
        ensures
            r.0 == (if self.0 % align == 0 { self.0 as int } else { self.0 + align - self.0 % align }),
    {
        Self(align_up_u64(self.0, align))
    }

    /// Whether the address is a multiple of `align`.
    pub fn is_aligned(&self, align: u64) -> (r: bool)
        requires
            is_power_of_two(align as int),
        ensures
            r == (self.0 % align == 0),
    {
        self.is_aligned_64(align)
    }

    /// Whether the address is a multiple of `align`.
    pub fn is_aligned_64(&self, align: u64) -> (r: bool)
        requires
            is_power_of_two(align as int),
        ensures
            r == (self.0 % align == 0),
    {
        self.align_down(align).0 == self.0
    }

    /// The address `rhs` bytes further on.
    pub fn add(self, rhs: u64) -> (r: Self)
        requires
            self.0 + rhs <= u64::MAX,
        ensures
            r.0 == self.0 + rhs,
    {
        Self(self.0 + rhs)
    }

    /// The address `rhs` bytes back.
    pub fn sub(self, rhs: u64) -> (r: Self)
        requires
            self.0 >= rhs,
        ensures
            r.0 == self.0 - rhs,
    {
        Self(self.0 - rhs)
    }
}

/// A virtual memory address.
#[derive(Clone, Copy, PartialEq, Eq, Structural, PartialOrd, Ord, Hash, Debug)]
pub struct VirtAddr(pub u64);

/// The index into the page table at paging level `level` (4 for the PML4,
/// 1 for the last table) that the address `addr` selects.
pub open spec fn table_index_of(addr: u64, level: int) -> u16 {
    ((addr >> (12 + 9 * (level - 1)) as u64) % 512) as u16
}

impl VirtAddr {
    /// The address 0.
    pub fn zero() -> (r: Self)
        ensures
            r.0 == 0,
    {
        Self(0u64)
    }

    /// The address `addr`.
    pub fn new(addr: u64) -> (r: Self)
        ensures
            r.0 == addr,
    {
        Self(addr)
    }

    /// The address as an integer.
    pub fn as_u64(self) -> (r: u64)
        ensures
            r == self.0,
    {
        self.0
    }

    /// The greatest multiple of `align` at or below this address.
    pub fn align_down(&self, align: u64) -> (r: Self)
        requires
            is_power_of_two(align as int),
        ensures
            r.0 == self.0 - self.0 % align,
    {
        Self(align_down_u64(self.0, align))
    }

    /// The least multiple of `align` at or above this address.
    pub fn align_up(&self, align: u64) -> (r: Self)
        requires
            is_power_of_two(align as int),
            self.0 + align <= u64::MAX,
        ensures
            r.0 == (if self.0 % align == 0 { self.0 as int } else { self.0 + align - self.0 % align }),
    {
        Self(align_up_u64(self.0, align))
    }

    /// Whether the address is a multiple of `align`.
    pub fn is_aligned(&self, align: u64) -> (r: bool)
        requires
            is_power_of_two(align as int),
        ensures
            r == (self.0 % align == 0),
    {
        self.is_aligned_64(align)
    }

    /// Whether the address is a multiple of `align`.
    pub fn is_aligned_64(&self, align: u64) -> (r: bool)
        requires
            is_power_of_two(align as int),
        ensures
            r == (self.0 % align == 0),
    {
        self.align_down(align).0 == self.0
    }

    /// The address `rhs` bytes further on.
    pub fn add(self, rhs: u64) -> (r: Self)
        requires
            self.0 + rhs <= u64::MAX,
        ensures
            r.0 == self.0 + rhs,
    {
        Self(self.0 + rhs)
    }

    /// The address `rhs` bytes back.
    pub fn sub(self, rhs: u64) -> (r: Self)
        requires
            self.0 >= rhs,
        ensures
            r.0 == self.0 - rhs,
    {
        Self(self.0 - rhs)
    }

    /// The index into the level-4 table (PML4) that this address selects.
    pub fn pml4(self) -> (r: PageTableIndex)
        ensures
            r@ == table_index_of(self.0, 4),
    {
        proof {
            lemma_index_bits(self.0, 39);
        }
        PageTableIndex::new_truncated((self.0 >> 12 >> 9 >> 9 >> 9) as u16)
    }

    /// The index into the level-3 table (PDPT) that this address selects.
    pub fn pdpt(self) -> (r: PageTableIndex)
        ensures
            r@ == table_index_of(self.0, 3),
    {
        proof {
            lemma_index_bits(self.0, 30);
        }
        PageTableIndex::new_truncated((self.0 >> 12 >> 9 >> 9) as u16)
    }

    /// The index into the level-2 table (PD) that this address selects.
    pub fn pd(self) -> (r: PageTableIndex)
        ensures
            r@ == table_index_of(self.0, 2),
    {
        proof {
            lemma_index_bits(self.0, 21);
        }
        PageTableIndex::new_truncated((self.0 >> 12 >> 9) as u16)
    }

    /// The index into the level-1 table (PT) that this address selects.
    pub fn pt(self) -> (r: PageTableIndex)
        ensures
            r@ == table_index_of(self.0, 1),
    {
        proof {
            lemma_index_bits(self.0, 12);
        }
        PageTableIndex::new_truncated((self.0 >> 12) as u16)
    }
}

proof fn lemma_index_bits(a: u64, s: u64)
    requires
        s == 12 || s == 21 || s == 30 || s == 39,
    ensures
        s == 39 ==> ((a >> 12 >> 9 >> 9 >> 9) as u16) % 512 == ((a >> 39u64) % 512) as u16,
        s == 30 ==> ((a >> 12 >> 9 >> 9) as u16) % 512 == ((a >> 30u64) % 512) as u16,
        s == 21 ==> ((a >> 12 >> 9) as u16) % 512 == ((a >> 21u64) % 512) as u16,
        s == 12 ==> ((a >> 12) as u16) % 512 == ((a >> 12u64) % 512) as u16,
{
    assert(((a >> 12 >> 9 >> 9 >> 9) as u16) % 512 == ((a >> 39u64) % 512) as u16) by (bit_vector);
    assert(((a >> 12 >> 9 >> 9) as u16) % 512 == ((a >> 30u64) % 512) as u16) by (bit_vector);
    assert(((a >> 12 >> 9) as u16) % 512 == ((a >> 21u64) % 512) as u16) by (bit_vector);
    assert(((a >> 12) as u16) % 512 == ((a >> 12u64) % 512) as u16) by (bit_vector);
}

} // verus!
