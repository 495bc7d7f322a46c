use vstd::prelude::*;
use core::marker::PhantomData;
use crate::sys::mem::addr::{VirtAddr, table_index_of};
use crate::sys::mem::page::PageSize;
use crate::sys::mem::vmm::paging::PageTableIndex;

pub mod mapper;
pub mod paging;

verus! {

/// A virtual page: a block of virtual memory of the size `S`, starting at a
/// multiple of that size.
#[derive(Debug)]
pub struct Page<S: PageSize> {
    start_addr: VirtAddr,
    size: PhantomData<S>,
}

impl<S: PageSize> Clone for Page<S> {
    fn clone(&self) -> (r: Self)
        ensures
            r == *self,
    {
        Page { start_addr: self.start_addr, size: PhantomData }
    }
}

impl<S: PageSize> Copy for Page<S> {
}

impl<S: PageSize> Page<S> {
    /// The first address of the page.
    pub closed spec fn start_spec(&self) -> u64 {
        self.start_addr.0
    }

    /// The page that holds `address`.
    pub fn containing_address(address: VirtAddr) -> (r: Self)
        ensures
            r.start_spec() == address.0 - address.0 % S::spec_size(),
    {
        proof {
            S::lemma_size_valid();
        }
        Page { start_addr: address.align_down(S::size()), size: PhantomData }
    }

    /// The first address of the page.
    pub fn start_address(&self) -> (r: VirtAddr)
        ensures
            r.0 == self.start_spec(),
    {
        self.start_addr
    }

    /// The size of the page in bytes.
    pub fn size(self) -> (r: u64)
        ensures
            r == S::spec_size(),
    {
        S::size()
    }

    /// The index into the level-4 table that the page's address selects.
    pub fn p4_index(&self) -> (r: PageTableIndex)
        ensures
            r@ == table_index_of(self.start_spec(), 4),
    {
        self.start_address().pml4()
    }

    /// The index into the level-3 table that the page's address selects.
    pub fn p3_index(&self) -> (r: PageTableIndex)
        ensures
            r@ == table_index_of(self.start_spec(), 3),
    {
        self.start_address().pdpt()
    }

    /// The index into the level-2 table that the page's address selects.
    pub fn p2_index(&self) -> (r: PageTableIndex)
        ensures
            r@ == table_index_of(self.start_spec(), 2),
    {
        self.start_address().pd()
    }

    /// The index into the level-1 table that the page's address selects.
    pub fn p1_index(&self) -> (r: PageTableIndex)
        ensures
            r@ == table_index_of(self.start_spec(), 1),
    {
        self.start_address().pt()
    }
}

} // verus!
