use vstd::prelude::*;
use crate::sys::mem::addr::PhysAddr;
use crate::sys::mem::frame::PhysFrame;
use crate::sys::mem::page::PageSize;
use crate::sys::mem::vmm::Page;

pub mod mapped_page_table;

verus! {

/// The ways mapping a page can fail.
#[derive(Debug)]
pub enum MapError<S: PageSize> {
    /// A page table was needed and the frame allocator had no frame left.
    FrameAllocationFailed,
    /// An entry on the way maps a huge page rather than a table.
    ParentHugePage,
    /// The page is mapped already; the frame it was to be mapped to.
    AlreadyMapped(PhysFrame<S>),
}

/// The ways unmapping a page can fail.
#[derive(Debug)]
pub enum UnmapError {
    ParentHugePage,
    PageNotMapped,
    InvalidFrameAddress(PhysAddr),
}

/// The ways translating a page can fail.
#[derive(Debug)]
pub enum TranslateError {
    PageNotMapped,
    ParentHugePage,
    InvalidFrameAddress(PhysAddr),
}

/// A change of the page tables for one page, whose translation the TLB may
/// still cache until it is flushed.
#[derive(Debug)]
pub struct MapperFlush<S: PageSize>(pub Page<S>);

impl<S: PageSize> MapperFlush<S> {
    /// The pending flush of `page`.
    pub fn new(page: Page<S>) -> (r: Self)
        ensures
            r.0 == page,
    {
        Self(page)
    }

    /// Drops the pending flush without flushing.
    pub fn ignore(self) {
    }

    /// The page to flush.
    pub fn page(&self) -> (r: &Page<S>)
        ensures
            *r == self.0,
    {
        &self.0
    }
}

/// A change of the page tables that calls for flushing the whole TLB.
#[derive(Debug)]
pub struct MapperFlushAll();

impl MapperFlushAll {
    /// The pending flush.
    pub fn new() -> (r: Self) {
        Self()
    }

    /// Drops the pending flush without flushing.
    pub fn ignore(self) {
    }
}

} // verus!
